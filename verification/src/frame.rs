//! Bounds checker and transfer framer.
//!
//! Every transaction starts with a 2-byte, big-endian encoding of the low
//! 16 bits of the target offset. A write frame is assembled in a
//! caller-supplied scratch buffer: the two address bytes, then the user
//! data verbatim; bytes of the buffer past the frame are left untouched.

use vstd::prelude::*;

verus! {

/// Capacity of the FM24V10 in bytes (1 Mbit).
pub const CAPACITY_BYTES: usize = 131072;

/// Number of in-device memory address bytes (A15..A0) at the front of
/// every transaction payload.
pub const MEMORY_ADDRESS_BYTES: usize = 2;

/// A nonzero-length access at `offset` covering `len` bytes stays inside
/// the device. (Zero-length accesses never reach this check: they succeed
/// without validation.)
pub open spec fn bounds_ok(offset: u32, len: nat) -> bool {
    offset < CAPACITY_BYTES && len <= CAPACITY_BYTES - offset
}

/// High byte of the 2-byte in-device address: bits 15..8 of the offset.
pub open spec fn mem_addr_hi(offset: u32) -> u8 {
    ((offset >> 8) & 0xFF) as u8
}

/// Low byte of the 2-byte in-device address: bits 7..0 of the offset.
pub open spec fn mem_addr_lo(offset: u32) -> u8 {
    (offset & 0xFF) as u8
}

/// The scratch buffer after a write frame for (`offset`, `data`) has been
/// assembled in it: the two address bytes, then `data` verbatim, then the
/// original contents beyond the frame, unchanged.
pub open spec fn write_frame(offset: u32, data: Seq<u8>, scratch: Seq<u8>) -> Seq<u8>
    recommends
        scratch.len() >= MEMORY_ADDRESS_BYTES + data.len(),
{
    seq![mem_addr_hi(offset), mem_addr_lo(offset)] + data + scratch.subrange(
        MEMORY_ADDRESS_BYTES + data.len() as int,
        scratch.len() as int,
    )
}

/// Validates an offset/length pair against the device capacity.
pub fn check_bounds(offset: u32, len: usize) -> (r: bool)
    ensures
        r == bounds_ok(offset, len as nat),
{
    offset < CAPACITY_BYTES as u32 && len <= CAPACITY_BYTES - offset as usize
}

/// Builds the 2-byte, big-endian in-device address payload for `offset`.
pub fn memory_address_payload(offset: u32) -> (r: Vec<u8>)
    ensures
        r@ == seq![mem_addr_hi(offset), mem_addr_lo(offset)],
{
    proof {
        assert(((offset >> 8) & 0xFF) < 256) by (bit_vector);
        assert((offset & 0xFF) < 256) by (bit_vector);
    }
    let hi: u8 = ((offset >> 8) & 0xFF) as u8;
    let lo: u8 = (offset & 0xFF) as u8;
    let mut payload: Vec<u8> = Vec::new();
    payload.push(hi);
    payload.push(lo);
    proof {
        assert(payload@ =~= seq![mem_addr_hi(offset), mem_addr_lo(offset)]);
    }
    payload
}

/// Assembles a write frame in the scratch buffer: the 2-byte in-device
/// address for `offset`, then `data` verbatim. Bytes past the frame and
/// the buffer's length are untouched.
pub fn fill_write_frame(scratch: &mut Vec<u8>, offset: u32, data: &[u8])
    requires
        old(scratch)@.len() >= MEMORY_ADDRESS_BYTES + data@.len(),
    ensures
        final(scratch)@ == write_frame(offset, data@, old(scratch)@),
        final(scratch)@.len() == old(scratch)@.len(),
{
    proof {
        assert(((offset >> 8) & 0xFF) < 256) by (bit_vector);
        assert((offset & 0xFF) < 256) by (bit_vector);
    }
    scratch[0] = ((offset >> 8) & 0xFF) as u8;
    scratch[1] = (offset & 0xFF) as u8;
    let scratch_len: usize = scratch.len();
    let mut i: usize = 0;
    while i < data.len()
        invariant
            i <= data@.len(),
            MEMORY_ADDRESS_BYTES + data@.len() <= scratch_len,
            scratch@.len() == old(scratch)@.len(),
            scratch@.len() >= MEMORY_ADDRESS_BYTES + data@.len(),
            scratch@[0] == mem_addr_hi(offset),
            scratch@[1] == mem_addr_lo(offset),
            forall|j: int| 0 <= j < i ==> scratch@[2 + j] == data@[j],
            forall|j: int|
                2 + data@.len() <= j < scratch@.len() ==> scratch@[j] == old(scratch)@[j],
        decreases data@.len() - i,
    {
        let b: u8 = *vstd::slice::slice_index_get(data, i);
        scratch[2 + i] = b;
        i += 1;
    }
    proof {
        assert(scratch@ =~= write_frame(offset, data@, old(scratch)@));
    }
}

/// The frame bytes actually sent — the address bytes and the data — are a
/// function of the offset and the data alone: stale scratch contents never
/// leak into the payload, so repeated writes with identical arguments
/// produce identical bus payloads.
pub proof fn lemma_frame_payload_independent(
    offset: u32,
    data: Seq<u8>,
    scratch1: Seq<u8>,
    scratch2: Seq<u8>,
)
    requires
        scratch1.len() >= MEMORY_ADDRESS_BYTES + data.len(),
        scratch2.len() >= MEMORY_ADDRESS_BYTES + data.len(),
    ensures
        write_frame(offset, data, scratch1).subrange(0, MEMORY_ADDRESS_BYTES + data.len() as int)
            == write_frame(offset, data, scratch2).subrange(
            0,
            MEMORY_ADDRESS_BYTES + data.len() as int,
        ),
{
    let payload = seq![mem_addr_hi(offset), mem_addr_lo(offset)] + data;
    assert(write_frame(offset, data, scratch1).subrange(
        0,
        MEMORY_ADDRESS_BYTES + data.len() as int,
    ) =~= payload);
    assert(write_frame(offset, data, scratch2).subrange(
        0,
        MEMORY_ADDRESS_BYTES + data.len() as int,
    ) =~= payload);
}

} // verus!
