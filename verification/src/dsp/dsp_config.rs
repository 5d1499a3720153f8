use vstd::prelude::*;
use crate::dsp::client::DSPClient;
use crate::dsp::DSP;

verus! {

impl DSP {
    /// Executes `HALT`: the halt bit of the shared control register is set,
    /// and the program counter moves on.
    pub fn op_halt(&mut self, client: &mut DSPClient)
        ensures
            *final(self) == old(self).advanced(1),
            *final(client) == (DSPClient { control_reg: old(client).control_reg.spec_set_halt(), ..*old(client) }),
    {
        client.control_reg.set_halt();
        self.advance(1);
    }
}

} // verus!
