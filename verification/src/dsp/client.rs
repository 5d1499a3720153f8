use vstd::prelude::*;
use crate::dsp::DSPControlRegister;

verus! {

/// The registers through which the CPU and the DSP talk to each other: the
/// control register and the two mailboxes, each in two halves. The machine
/// owns them, and hands them to the DSP for each of its steps.
#[derive(Clone, Copy, Debug)]
pub struct DSPClient {
    pub control_reg: DSPControlRegister,
    pub cpu_mbox_h: u16,
    pub cpu_mbox_l: u16,
    pub dsp_mbox_h: u16,
    pub dsp_mbox_l: u16,
}

impl DSPClient {
    /// The registers with every bit clear.
    pub fn new() -> (r: Self)
        ensures
            r == (DSPClient { control_reg: DSPControlRegister(0), cpu_mbox_h: 0, cpu_mbox_l: 0, dsp_mbox_h: 0, dsp_mbox_l: 0 }),
    {
        Self { control_reg: DSPControlRegister(0), cpu_mbox_h: 0, cpu_mbox_l: 0, dsp_mbox_h: 0, dsp_mbox_l: 0 }
    }
}

} // verus!
