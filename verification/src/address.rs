//! Address codec: derives the 7-bit bus slave address from the hardware
//! configuration pins and the page-select bit of a linear offset.
//!
//! The final 7-bit address is laid out as
//! `deviceCode(4 bits) : A2 : A1 : page`, where the device-family code is
//! fixed and the page bit is bit 16 of the linear offset. The base address
//! (pins only, page bit clear) is computed once at construction; each
//! transfer ORs in the page bit, which must touch no other bit.

use vstd::prelude::*;

verus! {

/// Device-family code for the FM24V10 (the 4-bit prefix `1010`).
pub const DEVICE_TYPE_CODE: u8 = 0b1010;

/// Hardware address-selection pins A1 and A2.
///
/// The fields are the physical pin states, each 0 or 1: the first field is
/// the A1 pin, the second the A2 pin. They are fixed by board strapping and
/// never change over the driver's lifetime.
#[derive(Debug, Clone, Copy)]
pub struct Address(pub u8, pub u8);

impl Address {
    /// Both pins are single-bit values.
    pub open spec fn wf(self) -> bool {
        self.0 <= 1 && self.1 <= 1
    }

    /// Computes the base 7-bit slave address `1010 A2 A1 0` for these pins.
    pub fn base_address(self) -> (r: u8)
        requires
            self.wf(),
        ensures
            r == base_address_spec(self.0, self.1),
            base_wf(r),
    {
        proof {
            lemma_base_address_wf(self.0, self.1);
        }
        (DEVICE_TYPE_CODE << 3) | (self.1 << 2) | (self.0 << 1)
    }
}

/// The base slave address for pin states `a1` and `a2`:
/// the device code in bits 6..3, A2 in bit 2, A1 in bit 1, bit 0 clear.
pub open spec fn base_address_spec(a1: u8, a2: u8) -> u8
    recommends
        a1 <= 1,
        a2 <= 1,
{
    (DEVICE_TYPE_CODE << 3) | (a2 << 2) | (a1 << 1)
}

/// Well-formedness of a base slave address: it fits in 7 bits, its low bit
/// is clear (reserved for page select), and its top four bits are the
/// device-family code.
pub open spec fn base_wf(b: u8) -> bool {
    b < 0x80 && b & 1 == 0 && (b >> 3) == DEVICE_TYPE_CODE
}

/// Bit 16 of the linear offset: selects the upper or lower 64 KiB page.
pub open spec fn page_select_bit(offset: u32) -> u8 {
    ((offset >> 16) & 1) as u8
}

/// The per-transfer slave address: the base address with the page bit ORed
/// into its (clear) low bit.
pub open spec fn slave_address_spec(base: u8, offset: u32) -> u8 {
    base | page_select_bit(offset)
}

/// Single-bit pins always yield a well-formed base address.
pub proof fn lemma_base_address_wf(a1: u8, a2: u8)
    by (bit_vector)
    requires
        a1 <= 1,
        a2 <= 1,
    ensures
        base_wf(base_address_spec(a1, a2)),
{
}

/// The four possible pin strappings produce exactly these base addresses.
pub proof fn lemma_base_address_patterns()
    ensures
        base_address_spec(0, 0) == 0b1010000u8,
        base_address_spec(1, 0) == 0b1010010u8,
        base_address_spec(0, 1) == 0b1010100u8,
        base_address_spec(1, 1) == 0b1010110u8,
{
    assert(base_address_spec(0, 0) == 0b1010000u8) by (bit_vector);
    assert(base_address_spec(1, 0) == 0b1010010u8) by (bit_vector);
    assert(base_address_spec(0, 1) == 0b1010100u8) by (bit_vector);
    assert(base_address_spec(1, 1) == 0b1010110u8) by (bit_vector);
}

/// ORing in the page bit behaves as "set the low bit to the page bit":
/// below 64 KiB the slave address equals the base address; in the upper
/// page it is the base address plus one; no other bit ever changes; and
/// the result always stays a 7-bit address.
pub proof fn lemma_slave_address_page(base: u8, offset: u32)
    by (bit_vector)
    requires
        base_wf(base),
    ensures
        offset < 0x10000 ==> slave_address_spec(base, offset) == base,
        0x10000 <= offset < 0x20000 ==> slave_address_spec(base, offset) == base + 1,
        slave_address_spec(base, offset) >> 1 == base >> 1,
        slave_address_spec(base, offset) & 1 == page_select_bit(offset),
        slave_address_spec(base, offset) < 0x80,
{
}

/// Computes the per-transfer slave address for a validated offset.
pub fn slave_address_for(base: u8, offset: u32) -> (r: u8)
    requires
        base_wf(base),
    ensures
        r == slave_address_spec(base, offset),
        r < 0x80,
{
    proof {
        lemma_slave_address_page(base, offset);
        assert(((offset >> 16) & 1) < 256) by (bit_vector);
    }
    let page: u8 = ((offset >> 16) & 1) as u8;
    base | page
}

} // verus!
