//! The FM24V10 driver object: glues the address codec, the bounds checker
//! and the transfer framer to an abstract bus capability.
//!
//! The bus transport is a capability the caller supplies by implementing
//! [`I2cBus`]; the driver owns it exclusively and issues at most one bus
//! transaction per call. Verification covers everything up to the bus
//! call: which transactions are issued, with which slave address and which
//! payload, and which typed error comes back on each rejected input.

use vstd::prelude::*;

use crate::address::Address;
use crate::address::base_address_spec;
use crate::address::base_wf;
use crate::address::lemma_slave_address_page;
use crate::address::slave_address_for;
use crate::address::slave_address_spec;
use crate::frame::CAPACITY_BYTES;
use crate::frame::MEMORY_ADDRESS_BYTES;
use crate::frame::bounds_ok;
use crate::frame::check_bounds;
use crate::frame::fill_write_frame;
use crate::frame::memory_address_payload;
use crate::frame::write_frame;

verus! {

/// Errors the driver reports.
///
/// The set is open: callers should keep a catch-all arm, as later
/// revisions may add variants.
#[derive(Debug)]
#[non_exhaustive]
pub enum Error<E> {
    /// The underlying bus transaction failed; carries the transport's own
    /// diagnostic verbatim. Never retried by this layer.
    I2c(E),
    /// The requested offset/length pair runs past the device capacity.
    /// Checked strictly before any bus traffic.
    OutOfBounds,
    /// The caller's scratch buffer cannot hold the requested write frame.
    /// Checked before the bus and the buffer are touched.
    BufferTooSmall,
}

/// The bus capability the driver drives: a two-wire transport addressed by
/// 7-bit slave addresses.
///
/// The caller supplies the implementation; the driver owns it exclusively.
/// An implementation must fill or drain the given buffers in one
/// transaction and report failures through its own error type. The
/// `write_read` contract only pins the read buffer's length — a transport
/// reads into a fixed-size region, so the length cannot change whether the
/// transaction succeeds or fails; the received bytes themselves are the
/// device's to choose.
pub trait I2cBus {
    /// The transport's own error type, surfaced verbatim inside
    /// [`Error::I2c`].
    type BusError;

    /// Writes `bytes` to the slave at the 7-bit address `address` in one
    /// transaction.
    fn write(&mut self, address: u8, bytes: &[u8]) -> Result<(), Self::BusError>
        requires
            address < 0x80,
    ;

    /// Writes `bytes` to the slave at the 7-bit address `address`, then
    /// reads exactly `read_into.len()` bytes back, as one combined
    /// transaction.
    fn write_read(&mut self, address: u8, bytes: &[u8], read_into: &mut Vec<u8>) -> (r: Result<
        (),
        Self::BusError,
    >)
        requires
            address < 0x80,
        ensures
            final(read_into)@.len() == old(read_into)@.len(),
    ;
}

/// Driver for the FM24V10 two-wire F-RAM.
///
/// Owns the bus capability, the base slave address derived once from the
/// hardware pins, and a scratch buffer used to assemble outgoing write
/// frames. The scratch buffer carries no state between calls; the driver
/// only ever reads back what the current call wrote into it.
pub struct Fm24v10<I2C> {
    i2c: I2C,
    base_address: u8,
    write_buffer: Vec<u8>,
}

impl<I2C: I2cBus> Fm24v10<I2C> {
    /// The stored base slave address (page bit clear).
    pub closed spec fn base(self) -> u8 {
        self.base_address
    }

    /// The current contents of the scratch buffer.
    pub closed spec fn scratch(self) -> Seq<u8> {
        self.write_buffer@
    }

    /// The driver's invariant: its base address is well formed.
    pub open spec fn wf(self) -> bool {
        base_wf(self.base())
    }

    /// Creates a driver instance from a bus capability, the A1/A2 pin
    /// states and a scratch buffer for assembling write frames. The buffer
    /// must be at least `MEMORY_ADDRESS_BYTES` plus the largest single
    /// write's length; this is checked per call, not here. Construction
    /// performs no bus traffic and cannot fail.
    pub fn new(i2c: I2C, address_pins: Address, write_buffer: Vec<u8>) -> (r: Self)
        requires
            address_pins.wf(),
        ensures
            r.wf(),
            r.base() == base_address_spec(address_pins.0, address_pins.1),
            r.scratch() == write_buffer@,
    {
        let base_address = address_pins.base_address();
        Fm24v10 { i2c, base_address, write_buffer }
    }

    /// Derives the per-transfer 7-bit slave address for `memory_offset`:
    /// the base address with bit 16 of the offset ORed into its low bit.
    /// Fails with `OutOfBounds` for offsets at or past the capacity.
    pub fn get_address_for_offset(&self, memory_offset: u32) -> (r: Result<
        u8,
        Error<I2C::BusError>,
    >)
        requires
            self.wf(),
        ensures
            memory_offset < CAPACITY_BYTES ==> r == Ok::<u8, Error<I2C::BusError>>(
                slave_address_spec(self.base(), memory_offset),
            ),
            memory_offset >= CAPACITY_BYTES ==> r == Err::<u8, Error<I2C::BusError>>(
                Error::OutOfBounds,
            ),
    {
        if memory_offset >= CAPACITY_BYTES as u32 {
            return Err(Error::OutOfBounds);
        }
        Ok(slave_address_for(self.base_address, memory_offset))
    }

    /// Reads `bytes.len()` bytes starting at `offset` into `bytes`.
    ///
    /// An empty buffer succeeds at once, at any offset, without touching
    /// the bus; an out-of-bounds request fails with `OutOfBounds`, also
    /// without touching the bus. Otherwise one combined
    /// write-then-read transaction is issued: the 2-byte in-device address
    /// first, then the read; a transport failure is surfaced as
    /// `Error::I2c`. The buffer's length never changes; on success it
    /// holds what the transport delivered.
    pub fn read(&mut self, offset: u32, bytes: &mut Vec<u8>) -> (r: Result<
        (),
        Error<I2C::BusError>,
    >)
        requires
            old(self).wf(),
        ensures
            final(self).wf(),
            final(self).base() == old(self).base(),
            final(self).scratch() == old(self).scratch(),
            final(bytes)@.len() == old(bytes)@.len(),
            old(bytes)@.len() == 0 ==> r == Ok::<(), Error<I2C::BusError>>(()) && *final(self)
                == *old(self) && final(bytes)@ == old(bytes)@,
            old(bytes)@.len() > 0 && !bounds_ok(offset, old(bytes)@.len()) ==> r == Err::<
                (),
                Error<I2C::BusError>,
            >(Error::OutOfBounds) && *final(self) == *old(self) && final(bytes)@ == old(bytes)@,
            old(bytes)@.len() > 0 && bounds_ok(offset, old(bytes)@.len()) ==> (r == Ok::<
                (),
                Error<I2C::BusError>,
            >(()) || (r matches Err(Error::I2c(_)))),
    {
        if bytes.is_empty() {
            return Ok(());
        }
        if !check_bounds(offset, bytes.len()) {
            return Err(Error::OutOfBounds);
        }
        let address = match self.get_address_for_offset(offset) {
            Ok(a) => a,
            Err(e) => {
                return Err(e);
            },
        };
        let mem_addr_payload = memory_address_payload(offset);
        proof {
            lemma_slave_address_page(self.base(), offset);
        }
        match self.i2c.write_read(address, mem_addr_payload.as_slice(), bytes) {
            Ok(()) => Ok(()),
            Err(e) => Err(Error::I2c(e)),
        }
    }

    /// Writes `data` starting at `offset`.
    ///
    /// An empty slice succeeds at once, at any offset, without touching
    /// the bus or the scratch buffer; an out-of-bounds request fails with
    /// `OutOfBounds` the same way. A scratch buffer shorter than the
    /// 2-byte address plus `data` fails with `BufferTooSmall`, again
    /// before any bus traffic. Otherwise the frame — in-device address,
    /// then `data` verbatim — is assembled in the scratch buffer, whose
    /// bytes past the frame stay untouched, and exactly the frame is sent
    /// to the computed slave address in one transaction; a transport
    /// failure is surfaced as `Error::I2c`.
    pub fn write(&mut self, offset: u32, data: &[u8]) -> (r: Result<(), Error<I2C::BusError>>)
        requires
            old(self).wf(),
        ensures
            final(self).wf(),
            final(self).base() == old(self).base(),
            final(self).scratch().len() == old(self).scratch().len(),
            data@.len() == 0 ==> r == Ok::<(), Error<I2C::BusError>>(()) && *final(self) == *old(
                self,
            ),
            data@.len() > 0 && !bounds_ok(offset, data@.len()) ==> r == Err::<
                (),
                Error<I2C::BusError>,
            >(Error::OutOfBounds) && *final(self) == *old(self),
            data@.len() > 0 && bounds_ok(offset, data@.len()) && old(self).scratch().len()
                < MEMORY_ADDRESS_BYTES + data@.len() ==> r == Err::<(), Error<I2C::BusError>>(
                Error::BufferTooSmall,
            ) && *final(self) == *old(self),
            data@.len() > 0 && bounds_ok(offset, data@.len()) && old(self).scratch().len()
                >= MEMORY_ADDRESS_BYTES + data@.len() ==> final(self).scratch() == write_frame(
                offset,
                data@,
                old(self).scratch(),
            ) && (r == Ok::<(), Error<I2C::BusError>>(()) || (r matches Err(Error::I2c(_)))),
    {
        if data.is_empty() {
            return Ok(());
        }
        if !check_bounds(offset, data.len()) {
            return Err(Error::OutOfBounds);
        }
        let required_buffer_len = MEMORY_ADDRESS_BYTES + data.len();
        if self.write_buffer.len() < required_buffer_len {
            return Err(Error::BufferTooSmall);
        }
        let address = match self.get_address_for_offset(offset) {
            Ok(a) => a,
            Err(e) => {
                return Err(e);
            },
        };
        fill_write_frame(&mut self.write_buffer, offset, data);
        proof {
            lemma_slave_address_page(self.base(), offset);
        }
        let frame = vstd::slice::slice_subrange(
            self.write_buffer.as_slice(),
            0,
            required_buffer_len,
        );
        match self.i2c.write(address, frame) {
            Ok(()) => Ok(()),
            Err(e) => Err(Error::I2c(e)),
        }
    }

    /// Reports the device capacity in bytes. A reported constant: no bus
    /// traffic, cannot fail, unaffected by prior operations or errors.
    pub fn capacity(&self) -> (r: Result<usize, Error<I2C::BusError>>)
        ensures
            r == Ok::<usize, Error<I2C::BusError>>(CAPACITY_BYTES),
    {
        Ok(CAPACITY_BYTES)
    }

    /// The scratch buffer's current contents, as last left by `write`.
    pub fn scratch_buffer(&self) -> (r: &Vec<u8>)
        ensures
            r@ == self.scratch(),
    {
        &self.write_buffer
    }
}

} // verus!
