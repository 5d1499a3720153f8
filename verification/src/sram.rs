use vstd::prelude::*;
use zerocopy::byteorder::big_endian::U16;
use crate::endian::be_image_u16;

verus! {

/// The size of the battery-backed memory in bytes.
pub const SRAM_SIZE: usize = 0x44;

/// The checksum of the memory at reset, and its inverse.
pub const RESET_CHECKSUM: u16 = 0x2c;

/// The offset of the flags byte.
pub const FLAGS_OFFSET: usize = 23;

/// The offset of the two memory card flash identifiers, twelve bytes each.
pub const FLASH_ID_OFFSET: usize = 24;

/// The offset of the checksum of the flash identifiers, two bytes.
pub const FLASH_ID_CHECKSUM_OFFSET: usize = 62;

/// The battery-backed memory, as the bytes that a transfer sees.
pub struct Sram {
    pub byte_array: [u8; 0x44],
}

/// Byte `k` of the flash identifier of the memory card slot `slot`: the
/// letters `DOLPHINSLOT` and the letter of the slot.
pub open spec fn spec_flash_id_byte(slot: usize, k: usize) -> u8 {
    if k == 0 {
        0x44
    } else if k == 1 || k == 9 {
        0x4F
    } else if k == 2 || k == 8 {
        0x4C
    } else if k == 3 {
        0x50
    } else if k == 4 {
        0x48
    } else if k == 5 {
        0x49
    } else if k == 6 {
        0x4E
    } else if k == 7 {
        0x53
    } else if k == 10 {
        0x54
    } else if slot == 0 {
        0x41
    } else {
        0x42
    }
}

/// Byte `k` of the flash identifier of the memory card slot `slot`.
#[verifier::when_used_as_spec(spec_flash_id_byte)]
pub fn flash_id_byte(slot: usize, k: usize) -> (r: u8)
    ensures
        r == spec_flash_id_byte(slot, k),
{
    if k == 0 {
        0x44
    } else if k == 1 || k == 9 {
        0x4F
    } else if k == 2 || k == 8 {
        0x4C
    } else if k == 3 {
        0x50
    } else if k == 4 {
        0x48
    } else if k == 5 {
        0x49
    } else if k == 6 {
        0x4E
    } else if k == 7 {
        0x53
    } else if k == 10 {
        0x54
    } else if slot == 0 {
        0x41
    } else {
        0x42
    }
}

/// Byte `i` of the memory at reset: the checksum and its inverse in
/// big-endian order at offsets 4 and 6, the flags, the two flash
/// identifiers and their checksum; every other byte is zero.
pub open spec fn reset_byte(i: int) -> u8 {
    if 4 <= i < 6 {
        be_image_u16(RESET_CHECKSUM)[i - 4]
    } else if 6 <= i < 8 {
        be_image_u16(RESET_CHECKSUM)[i - 6]
    } else if i == FLAGS_OFFSET {
        0x20
    } else if FLASH_ID_OFFSET <= i < FLASH_ID_OFFSET + 24 {
        spec_flash_id_byte(((i - FLASH_ID_OFFSET) / 12) as usize, ((i - FLASH_ID_OFFSET) % 12) as usize)
    } else if i == FLASH_ID_CHECKSUM_OFFSET {
        0x6E
    } else if i == FLASH_ID_CHECKSUM_OFFSET + 1 {
        0x6D
    } else {
        0
    }
}

/// `zerocopy::byteorder::big_endian::U16::new`, read back with `to_bytes`:
/// the two bytes that hold `n` in big-endian order.
#[verifier::external_body]
fn be_u16_bytes(n: u16) -> (r: [u8; 2])
    ensures
        r@ == be_image_u16(n),
{
    U16::new(n).to_bytes()
}

impl Sram {
    /// Whether the memory is as a reset leaves it.
    pub open spec fn at_reset(self) -> bool {
        forall|i: int| 0 <= i < SRAM_SIZE ==> self.byte_array[i] == reset_byte(i)
    }

    /// The memory at reset.
    pub fn new() -> (r: Self)
        ensures
            r.at_reset(),
    {
        let checksum: [u8; 2] = be_u16_bytes(RESET_CHECKSUM);
        let mut bytes: [u8; 0x44] = [0;0x44];
        let mut i: usize = 0;
        while i < SRAM_SIZE
            invariant
                i <= SRAM_SIZE,
                checksum@ == be_image_u16(RESET_CHECKSUM),
                forall|j: int| 0 <= j < i ==> bytes[j] == reset_byte(j),
            decreases SRAM_SIZE - i,
        {
            let byte: u8 = if 4 <= i && i < 6 {
                checksum[i - 4]
            } else if 6 <= i && i < 8 {
                checksum[i - 6]
            } else if i == FLAGS_OFFSET {
                0x20
            } else if FLASH_ID_OFFSET <= i && i < FLASH_ID_OFFSET + 24 {
                flash_id_byte((i - FLASH_ID_OFFSET) / 12, (i - FLASH_ID_OFFSET) % 12)
            } else if i == FLASH_ID_CHECKSUM_OFFSET {
                0x6E
            } else if i == FLASH_ID_CHECKSUM_OFFSET + 1 {
                0x6D
            } else {
                0
            };
            bytes[i] = byte;
            i += 1;
        }
        Self { byte_array: bytes }
    }

    /// The bytes of the memory.
    pub fn as_byte_array(&self) -> (r: &[u8; 0x44])
        ensures
            *r == self.byte_array,
    {
        &self.byte_array
    }

    /// The bytes of the memory, to write in place.
    pub fn as_byte_array_mut(&mut self) -> (r: &mut [u8; 0x44])
        ensures
            *r == old(self).byte_array,
            final(self).byte_array == *final(r),
    {
        &mut self.byte_array
    }
}

} // verus!
