use vstd::prelude::*;

verus! {

/// The four hardware stacks of the DSP below their top elements, which the
/// stack registers hold: four circular buffers of 32 words, each with the
/// index of the word that was stored last.
pub struct DSPStacks {
    pub stacks: [[u16; 0x20]; 4],
    pub pointers: [usize; 4],
}

impl DSPStacks {
    /// Four empty stacks.
    pub fn new() -> (r: Self)
        ensures
            forall|s: int, i: int| 0 <= s < 4 && 0 <= i < 0x20 ==> r.stacks[s][i] == 0,
            forall|s: int| 0 <= s < 4 ==> r.pointers[s] == 0,
    {
        Self { stacks: [[0;0x20];4], pointers: [0;4] }
    }
}

} // verus!
