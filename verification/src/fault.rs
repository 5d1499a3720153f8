use vstd::prelude::*;

verus! {

/// A fatal condition met while emulating. A fault ends the step that met it.
/// What the step had already written stays written: nothing is rolled back.
#[derive(Clone, Copy, Debug, PartialEq, Eq, Structural)]
pub enum Fault {
    /// The CPU fetched a word whose primary and secondary opcode select no
    /// handler, or a handler met a form of its instruction that is not
    /// modelled (overflow recording, condition field 1, a program exception).
    UnimplementedOpcode { primary: usize, secondary: usize, instruction: u32 },
    /// A move to or from a special-purpose register that is not modelled.
    UnimplementedSpr { spr: usize, instruction: u32 },
    /// No block address translation entry matches the effective address.
    TranslationMiss { address: u32 },
    /// No memory or peripheral answers at the physical address for an access
    /// of this width.
    UnmappedAddress { address: u32 },
    /// The peripheral that owns the physical address has no such register.
    UnimplementedPeripheralRegister { address: u32 },
    /// An external-interface device cannot take part in the transfer.
    UnimplementedDeviceTransfer { command: u32 },
    /// The DSP fetched a word that matches no instruction pattern.
    UnimplementedDspOpcode { word: u16 },
    /// The DSP met a condition code that is not modelled.
    UnimplementedDspCondition { code: u16 },
    /// The DSP addressed instruction or data memory that is not modelled.
    UnimplementedDspAddress { dsp_address: u16 },
    /// A DSP step ran out of its budget of nested steps.
    DspBudgetExhausted,
}

} // verus!
