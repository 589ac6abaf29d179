use std::cell::RefCell;
use std::rc::Rc;

use fm24v10::Address;
use fm24v10::Error;
use fm24v10::Fm24v10;
use fm24v10::I2cBus;
use fm24v10::frame::CAPACITY_BYTES;
use fm24v10::frame::check_bounds;
use fm24v10::frame::memory_address_payload;

/// One bus transaction as a mock transport saw it.
#[derive(Clone, Debug, PartialEq)]
enum BusCall {
    Write { address: u8, bytes: Vec<u8> },
    WriteRead { address: u8, bytes: Vec<u8>, read_len: usize },
}

/// A transport mock: records every transaction, answers reads with a fixed
/// byte pattern, and can be told to fail every transaction.
struct MockBus {
    log: Rc<RefCell<Vec<BusCall>>>,
    read_data: Vec<u8>,
    fail_with: Option<u8>,
}

impl MockBus {
    fn new(log: Rc<RefCell<Vec<BusCall>>>) -> MockBus {
        MockBus { log, read_data: Vec::new(), fail_with: None }
    }
}

impl I2cBus for MockBus {
    type BusError = u8;

    fn write(&mut self, address: u8, bytes: &[u8]) -> Result<(), u8> {
        self.log.borrow_mut().push(BusCall::Write { address, bytes: bytes.to_vec() });
        match self.fail_with {
            Some(e) => Err(e),
            None => Ok(()),
        }
    }

    fn write_read(
        &mut self,
        address: u8,
        bytes: &[u8],
        read_into: &mut Vec<u8>,
    ) -> Result<(), u8> {
        self.log.borrow_mut().push(BusCall::WriteRead {
            address,
            bytes: bytes.to_vec(),
            read_len: read_into.len(),
        });
        if let Some(e) = self.fail_with {
            return Err(e);
        }
        for i in 0..read_into.len() {
            read_into[i] = self.read_data[i % self.read_data.len()];
        }
        Ok(())
    }
}

fn driver_with_log(
    pins: Address,
    scratch_len: usize,
) -> (Fm24v10<MockBus>, Rc<RefCell<Vec<BusCall>>>) {
    driver_with_bus(pins, scratch_len, Vec::new(), None)
}

fn driver_with_bus(
    pins: Address,
    scratch_len: usize,
    read_data: Vec<u8>,
    fail_with: Option<u8>,
) -> (Fm24v10<MockBus>, Rc<RefCell<Vec<BusCall>>>) {
    let log = Rc::new(RefCell::new(Vec::new()));
    let mut bus = MockBus::new(Rc::clone(&log));
    bus.read_data = read_data;
    bus.fail_with = fail_with;
    (Fm24v10::new(bus, pins, vec![0u8; scratch_len]), log)
}

#[test]
fn base_address_patterns() {
    assert_eq!(Address(0, 0).base_address(), 0b1010000);
    assert_eq!(Address(1, 0).base_address(), 0b1010010);
    assert_eq!(Address(0, 1).base_address(), 0b1010100);
    assert_eq!(Address(1, 1).base_address(), 0b1010110);
}

#[test]
fn slave_address_selects_page() {
    let (d, _log) = driver_with_log(Address(0, 0), 0);
    assert_eq!(d.get_address_for_offset(0).unwrap(), 0b1010000);
    assert_eq!(d.get_address_for_offset(65535).unwrap(), 0b1010000);
    assert_eq!(d.get_address_for_offset(65536).unwrap(), 0b1010001);
    assert_eq!(d.get_address_for_offset(131071).unwrap(), 0b1010001);
    let (d, _log) = driver_with_log(Address(1, 1), 0);
    assert_eq!(d.get_address_for_offset(12345).unwrap(), 0b1010110);
    assert_eq!(d.get_address_for_offset(70000).unwrap(), 0b1010111);
}

#[test]
fn slave_address_out_of_bounds() {
    let (d, _log) = driver_with_log(Address(0, 0), 0);
    assert!(matches!(d.get_address_for_offset(131072), Err(Error::OutOfBounds)));
    assert!(matches!(d.get_address_for_offset(u32::MAX), Err(Error::OutOfBounds)));
}

#[test]
fn read_out_of_bounds_at_capacity() {
    let (mut d, log) = driver_with_log(Address(0, 0), 8);
    let mut buf = vec![0u8; 1];
    assert!(matches!(d.read(131072, &mut buf), Err(Error::OutOfBounds)));
    assert!(log.borrow().is_empty());
}

#[test]
fn write_out_of_bounds_at_capacity() {
    let (mut d, log) = driver_with_log(Address(0, 0), 8);
    assert!(matches!(d.write(131072, &[1]), Err(Error::OutOfBounds)));
    assert!(log.borrow().is_empty());
}

#[test]
fn bounds_edge_last_byte() {
    let (mut d, log) = driver_with_bus(Address(0, 0), 8, vec![0x5A], None);
    let mut one = vec![0u8; 1];
    assert!(d.read(131071, &mut one).is_ok());
    assert!(d.write(131071, &[7]).is_ok());
    let mut two = vec![0u8; 2];
    assert!(matches!(d.read(131071, &mut two), Err(Error::OutOfBounds)));
    assert!(matches!(d.write(131071, &[7, 8]), Err(Error::OutOfBounds)));
    assert_eq!(log.borrow().len(), 2);
}

#[test]
fn zero_length_is_silent_success() {
    let (mut d, log) = driver_with_log(Address(0, 0), 0);
    let mut empty: Vec<u8> = Vec::new();
    assert!(d.read(999999, &mut empty).is_ok());
    assert!(d.write(999999, &[]).is_ok());
    assert!(log.borrow().is_empty());
}

#[test]
fn write_frame_bytes() {
    let (mut d, log) = driver_with_log(Address(0, 0), 8);
    assert!(d.write(0x0102, &[0xAA, 0xBB]).is_ok());
    let calls = log.borrow();
    assert_eq!(
        *calls,
        vec![BusCall::Write { address: 0b1010000, bytes: vec![0x01, 0x02, 0xAA, 0xBB] }]
    );
    assert_eq!(&d.scratch_buffer()[..4], &[0x01, 0x02, 0xAA, 0xBB]);
}

#[test]
fn write_frame_upper_page() {
    let (mut d, log) = driver_with_log(Address(0, 0), 8);
    assert!(d.write(0x10004, &[0xEE]).is_ok());
    let calls = log.borrow();
    assert_eq!(
        *calls,
        vec![BusCall::Write { address: 0b1010001, bytes: vec![0x00, 0x04, 0xEE] }]
    );
}

#[test]
fn read_frame_bytes() {
    let (mut d, log) = driver_with_bus(Address(0, 0), 0, vec![0x11, 0x22, 0x33], None);
    let mut buf = vec![0u8; 3];
    assert!(d.read(0x00FF, &mut buf).is_ok());
    let calls = log.borrow();
    assert_eq!(
        *calls,
        vec![BusCall::WriteRead { address: 0b1010000, bytes: vec![0x00, 0xFF], read_len: 3 }]
    );
    assert_eq!(buf, vec![0x11, 0x22, 0x33]);
}

#[test]
fn buffer_too_small_before_bus() {
    let (mut d, log) = driver_with_log(Address(0, 0), 2);
    assert!(matches!(d.write(0, &[1]), Err(Error::BufferTooSmall)));
    assert!(log.borrow().is_empty());
    assert_eq!(d.scratch_buffer(), &vec![0u8, 0u8]);
}

#[test]
fn capacity_is_constant() {
    let (mut d, _log) = driver_with_log(Address(1, 0), 2);
    assert_eq!(d.capacity().unwrap(), 131072);
    assert_eq!(CAPACITY_BYTES, 131072);
    let _ = d.write(131072, &[1]);
    let _ = d.write(0, &[1, 2, 3]);
    assert_eq!(d.capacity().unwrap(), 131072);
}

#[test]
fn repeated_reads_are_identical() {
    let (mut d, log) = driver_with_bus(Address(0, 0), 0, vec![0xDE, 0xAD], None);
    let mut first = vec![0u8; 2];
    let mut second = vec![0u8; 2];
    assert!(d.read(0x0300, &mut first).is_ok());
    assert!(d.read(0x0300, &mut second).is_ok());
    assert_eq!(first, second);
    let calls = log.borrow();
    assert_eq!(calls.len(), 2);
    assert_eq!(calls[0], calls[1]);
}

#[test]
fn repeated_writes_send_identical_payloads() {
    let (mut d, log) = driver_with_log(Address(0, 0), 8);
    assert!(d.write(0x0200, &[9, 8, 7]).is_ok());
    assert!(d.write(0x0200, &[9, 8, 7]).is_ok());
    let calls = log.borrow();
    assert_eq!(calls.len(), 2);
    assert_eq!(calls[0], calls[1]);
}

#[test]
fn transport_failure_is_surfaced() {
    let (mut d, log) = driver_with_bus(Address(0, 0), 8, Vec::new(), Some(42));
    let mut buf = vec![0u8; 1];
    assert!(matches!(d.read(0, &mut buf), Err(Error::I2c(e)) if e == 42));
    assert!(matches!(d.write(0, &[1]), Err(Error::I2c(e)) if e == 42));
    assert_eq!(log.borrow().len(), 2);
}

#[test]
fn memory_address_payload_is_big_endian() {
    assert_eq!(memory_address_payload(0x00FF), vec![0x00, 0xFF]);
    assert_eq!(memory_address_payload(0x0102), vec![0x01, 0x02]);
    assert_eq!(memory_address_payload(0x1FFFF), vec![0xFF, 0xFF]);
    assert_eq!(memory_address_payload(0), vec![0x00, 0x00]);
}

#[test]
fn check_bounds_rules() {
    assert!(check_bounds(0, 131072));
    assert!(!check_bounds(0, 131073));
    assert!(check_bounds(131071, 1));
    assert!(!check_bounds(131071, 2));
    assert!(!check_bounds(131072, 1));
    assert!(check_bounds(131072, 0) == false);
}
