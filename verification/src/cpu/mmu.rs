use vstd::prelude::*;
use vstd::array::spec_array_update;
use crate::cpu::instr::lemma_and_bound;
use crate::cpu::MachineStateRegister;
use crate::fault::Fault;

verus! {

/// One block address translation entry: the upper and the lower register.
#[derive(Debug, Copy, Clone, PartialEq, Eq, Structural)]
pub struct Bat(pub u32, pub u32);

impl Bat {
    pub open spec fn spec_bepi(&self) -> u32 {
        (self.0 >> 17) & 0x7FFF
    }

    /// The block effective page index.
    #[verifier::when_used_as_spec(spec_bepi)]
    pub fn bepi(&self) -> (r: u32)
        ensures
            r == self.spec_bepi(),
            r <= 0x7FFF,
    {
        proof {
            lemma_and_bound(self.0 >> 17, 0x7FFF);
        }
        (self.0 >> 17) & 0x7FFF
    }

    pub open spec fn spec_bl(&self) -> u32 {
        (self.0 >> 2) & 0x7FF
    }

    /// The block length mask.
    #[verifier::when_used_as_spec(spec_bl)]
    pub fn bl(&self) -> (r: u32)
        ensures
            r == self.spec_bl(),
            r <= 0x7FF,
    {
        proof {
            lemma_and_bound(self.0 >> 2, 0x7FF);
        }
        (self.0 >> 2) & 0x7FF
    }

    pub open spec fn spec_vs(&self) -> bool {
        ((self.0 >> 1) & 1) != 0
    }

    /// Whether the entry is valid in supervisor mode.
    #[verifier::when_used_as_spec(spec_vs)]
    pub fn vs(&self) -> (r: bool)
        ensures
            r == self.spec_vs(),
    {
        ((self.0 >> 1) & 1) != 0
    }

    pub open spec fn spec_vp(&self) -> bool {
        (self.0 & 1) != 0
    }

    /// Whether the entry is valid in user mode.
    #[verifier::when_used_as_spec(spec_vp)]
    pub fn vp(&self) -> (r: bool)
        ensures
            r == self.spec_vp(),
    {
        (self.0 & 1) != 0
    }

    pub open spec fn spec_brpn(&self) -> u32 {
        (self.1 >> 17) & 0x7FFF
    }

    /// The block real page number.
    #[verifier::when_used_as_spec(spec_brpn)]
    pub fn brpn(&self) -> (r: u32)
        ensures
            r == self.spec_brpn(),
            r <= 0x7FFF,
    {
        proof {
            lemma_and_bound(self.1 >> 17, 0x7FFF);
        }
        (self.1 >> 17) & 0x7FFF
    }

    pub open spec fn spec_wimg(&self) -> u32 {
        (self.1 >> 3) & 0x1F
    }

    /// The storage access controls.
    #[verifier::when_used_as_spec(spec_wimg)]
    pub fn wimg(&self) -> (r: u32)
        ensures
            r == self.spec_wimg(),
            r <= 0x1F,
    {
        proof {
            lemma_and_bound(self.1 >> 3, 0x1F);
        }
        (self.1 >> 3) & 0x1F
    }

    pub open spec fn spec_pp(&self) -> u32 {
        self.1 & 3
    }

    /// The protection bits.
    #[verifier::when_used_as_spec(spec_pp)]
    pub fn pp(&self) -> (r: u32)
        ensures
            r == self.spec_pp(),
            r <= 3,
    {
        proof {
            lemma_and_bound(self.1, 3);
        }
        self.1 & 3
    }

    /// Whether the entry translates the effective address `addr` for an access
    /// made in user mode (`user`) or in supervisor mode (`!user`): the page
    /// index of `addr`, with the bits that the block length selects cleared,
    /// equals the entry's page index, and the entry is valid for that mode.
    pub open spec fn spec_matches(&self, addr: u32, user: bool) -> bool {
        let page: u32 = addr >> 17;
        &&& ((page & 0x7800) ^ ((page & 0x7FF) & !self.bl())) == self.bepi()
        &&& ((!user && self.vs()) || (user && self.vp()))
    }

    /// Whether the entry translates `addr` for the given privilege level.
    #[verifier::when_used_as_spec(spec_matches)]
    pub fn matches(&self, addr: u32, user: bool) -> (r: bool)
        ensures
            r == self.spec_matches(addr, user),
    {
        let page: u32 = addr >> 17;
        let index: u32 = (page & 0x7800) ^ ((page & 0x7FF) & !self.bl());
        index == self.bepi() && ((!user && self.vs()) || (user && self.vp()))
    }

    /// The physical address that the entry gives `addr`: the real page number,
    /// with the bits that the block length selects taken from `addr`, above
    /// the low 17 bits of `addr`.
    pub open spec fn spec_physical(&self, addr: u32) -> u32 {
        let page: u32 = addr >> 17;
        ((self.brpn() ^ ((page & 0x7FF) & self.bl())) << 17) ^ (addr & 0x1FFFF)
    }

    /// The physical address that the entry gives `addr`.
    #[verifier::when_used_as_spec(spec_physical)]
    pub fn physical(&self, addr: u32) -> (r: u32)
        ensures
            r == self.spec_physical(addr),
    {
        let page: u32 = addr >> 17;
        let upper: u32 = self.brpn() ^ ((page & 0x7FF) & self.bl());
        (upper << 17) ^ (addr & 0x1FFFF)
    }
}

/// The memory management unit: four data and four instruction block address
/// translation entries, and the sixteen segment registers.
pub struct Mmu {
    pub dbats: [Bat; 4],
    pub ibats: [Bat; 4],
    pub srs: [u32; 16],
}

/// What the first of the four entries that matches gives `addr`; a
/// translation miss where none matches.
pub open spec fn translate_through(bats: [Bat; 4], addr: u32, user: bool) -> Result<u32, Fault> {
    if bats[0].matches(addr, user) {
        Ok(bats[0].physical(addr))
    } else if bats[1].matches(addr, user) {
        Ok(bats[1].physical(addr))
    } else if bats[2].matches(addr, user) {
        Ok(bats[2].physical(addr))
    } else if bats[3].matches(addr, user) {
        Ok(bats[3].physical(addr))
    } else {
        Err(Fault::TranslationMiss { address: addr })
    }
}

impl Mmu {
    /// The unit at reset: every register zero.
    pub fn new() -> (r: Self)
        ensures
            forall|i: int| 0 <= i < 4 ==> r.dbats[i] == Bat(0, 0) && r.ibats[i] == Bat(0, 0),
            forall|i: int| 0 <= i < 16 ==> r.srs[i] == 0,
    {
        Self { dbats: [Bat(0, 0);4], ibats: [Bat(0, 0);4], srs: [0;16] }
    }

    pub open spec fn spec_write_dbatu(self, idx: usize, val: u32) -> Self {
        Mmu { dbats: spec_array_update(self.dbats, idx as int, Bat(val, self.dbats[idx as int].1)), ..self }
    }

    /// Writes the upper register of data entry `idx`.
    pub fn write_dbatu(&mut self, idx: usize, val: u32)
        requires
            idx < 4,
        ensures
            *final(self) == old(self).spec_write_dbatu(idx, val),
    {
        let mut bat: Bat = self.dbats[idx];
        bat.0 = val;
        self.dbats[idx] = bat;
        assert(self.dbats =~= old(self).spec_write_dbatu(idx, val).dbats);
    }

    pub open spec fn spec_write_dbatl(self, idx: usize, val: u32) -> Self {
        Mmu { dbats: spec_array_update(self.dbats, idx as int, Bat(self.dbats[idx as int].0, val)), ..self }
    }

    /// Writes the lower register of data entry `idx`.
    pub fn write_dbatl(&mut self, idx: usize, val: u32)
        requires
            idx < 4,
        ensures
            *final(self) == old(self).spec_write_dbatl(idx, val),
    {
        let mut bat: Bat = self.dbats[idx];
        bat.1 = val;
        self.dbats[idx] = bat;
        assert(self.dbats =~= old(self).spec_write_dbatl(idx, val).dbats);
    }

    pub open spec fn spec_write_ibatu(self, idx: usize, val: u32) -> Self {
        Mmu { ibats: spec_array_update(self.ibats, idx as int, Bat(val, self.ibats[idx as int].1)), ..self }
    }

    /// Writes the upper register of instruction entry `idx`.
    pub fn write_ibatu(&mut self, idx: usize, val: u32)
        requires
            idx < 4,
        ensures
            *final(self) == old(self).spec_write_ibatu(idx, val),
    {
        let mut bat: Bat = self.ibats[idx];
        bat.0 = val;
        self.ibats[idx] = bat;
        assert(self.ibats =~= old(self).spec_write_ibatu(idx, val).ibats);
    }

    pub open spec fn spec_write_ibatl(self, idx: usize, val: u32) -> Self {
        Mmu { ibats: spec_array_update(self.ibats, idx as int, Bat(self.ibats[idx as int].0, val)), ..self }
    }

    /// Writes the lower register of instruction entry `idx`.
    pub fn write_ibatl(&mut self, idx: usize, val: u32)
        requires
            idx < 4,
        ensures
            *final(self) == old(self).spec_write_ibatl(idx, val),
    {
        let mut bat: Bat = self.ibats[idx];
        bat.1 = val;
        self.ibats[idx] = bat;
        assert(self.ibats =~= old(self).spec_write_ibatl(idx, val).ibats);
    }

    /// The physical address of the effective address `addr`. With translation
    /// switched off for the kind of access (`instr` for a fetch), the address
    /// itself; otherwise what the first matching entry of that kind gives.
    pub open spec fn spec_translate_addr(&self, instr: bool, addr: u32, msr: &MachineStateRegister) -> Result<u32, Fault> {
        if instr {
            if !msr.ir() {
                Ok(addr)
            } else {
                translate_through(self.ibats, addr, msr.pr())
            }
        } else {
            if !msr.dr() {
                Ok(addr)
            } else {
                translate_through(self.dbats, addr, msr.pr())
            }
        }
    }

    /// Translates the effective address `addr` of an instruction fetch
    /// (`instr`) or of a data access. Fails with a translation miss when
    /// translation is on and no entry matches.
    #[verifier::when_used_as_spec(spec_translate_addr)]
    pub fn translate_addr(&self, instr: bool, addr: u32, msr: &MachineStateRegister) -> (r: Result<u32, Fault>)
        ensures
            r == self.spec_translate_addr(instr, addr, msr),
    {
        let bats: &[Bat; 4] = if instr {
            if !msr.ir() {
                return Ok(addr);
            }
            &self.ibats
        } else {
            if !msr.dr() {
                return Ok(addr);
            }
            &self.dbats
        };
        let user: bool = msr.pr();
        let mut i: usize = 0;
        while i < 4
            invariant
                i <= 4,
                *bats == (if instr { self.ibats } else { self.dbats }),
                instr ==> msr.ir(),
                !instr ==> msr.dr(),
                user == msr.pr(),
                forall|j: int| 0 <= j < i ==> !(#[trigger] bats[j]).matches(addr, user),
            decreases 4 - i,
        {
            let bat: Bat = bats[i];
            if bat.matches(addr, user) {
                return Ok(bat.physical(addr));
            }
            i += 1;
        }
        Err(Fault::TranslationMiss { address: addr })
    }
}

/// A translation keeps the low 17 bits of the effective address.
pub proof fn lemma_physical_keeps_offset(bat: Bat, addr: u32)
    ensures
        bat.physical(addr) & 0x1FFFF == addr & 0x1FFFF,
{
    let upper: u32 = bat.brpn() ^ (((addr >> 17) & 0x7FF) & bat.bl());
    let low: u32 = addr & 0x1FFFF;
    assert(((upper << 17) ^ (low & 0x1FFFF)) & 0x1FFFF == low & 0x1FFFF) by (bit_vector);
    assert(low & 0x1FFFF == low) by (bit_vector)
        requires
            low == addr & 0x1FFFF,
    ;
}

} // verus!
