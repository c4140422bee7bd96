//! Deriving the radio's static device address from the two factory
//! device-identifier words.  Reading those words out of the hardware
//! registers is the composition root's concern; the arithmetic lives
//! here.

use vstd::prelude::*;

verus! {

/// The 48-bit address value: the two device-id words joined into one
/// word, with the top two address bits forced on as a static random
/// address requires.
pub open spec fn combined_device_id(low: u32, high: u32) -> u64 {
    (((high as u64) << 32u64) | (low as u64)) | 0x0000_c000_0000_0000u64
}

/// The six address bytes, least significant first.
pub fn ble_addr(device_id_low: u32, device_id_high: u32) -> (r: [u8; 6])
    ensures
        forall|i: int|
            0 <= i < 6 ==> r@[i] == (combined_device_id(device_id_low, device_id_high) >> (
            8 * i) as u64) as u8,
{
    let addr: u64 = (((device_id_high as u64) << 32u64) | (device_id_low as u64))
        | 0x0000_c000_0000_0000u64;
    let r: [u8; 6] = [
        addr as u8,
        (addr >> 8u64) as u8,
        (addr >> 16u64) as u8,
        (addr >> 24u64) as u8,
        (addr >> 32u64) as u8,
        (addr >> 40u64) as u8,
    ];
    proof {
        assert(addr == combined_device_id(device_id_low, device_id_high));
        assert(addr as u8 == (addr >> 0u64) as u8) by (bit_vector);
    }
    r
}

} // verus!
