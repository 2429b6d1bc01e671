use kernel::device::block::{BlockDevice, BlockError};
use kernel::device::{DeviceId, DeviceManager, DeviceRegister};
use kernel::drivers::pic8259::{end_of_interrupt_writes, enable_timer, init_writes, mask_writes};
use kernel::drivers::serial::Serial;
use kernel::drivers::tty::{TtyHandle, TtyPool, TtyProvider};

#[test]
fn device_ids_start_at_one() {
    let mut register: DeviceRegister<&str> = DeviceRegister::new();
    assert_eq!(register.register("a"), DeviceId(1));
    assert_eq!(register.register("b"), DeviceId(2));
    assert_eq!(DeviceId::from(7), DeviceId(7));
}

struct Disk;

impl BlockDevice for Disk {
    fn read(&self, lba: u64, buf: &mut [u8; 512]) -> Result<(), BlockError> {
        if lba > 0 {
            return Err(BlockError::InvalidLba);
        }
        buf[0] = 1;
        Ok(())
    }

    fn write(&self, _lba: u64, _buf: &[u8; 512]) -> Result<(), BlockError> {
        Err(BlockError::InvalidLba)
    }
}

#[test]
fn device_manager_starts_empty() {
    let mut manager: DeviceManager<Disk> = DeviceManager::new();
    let id = manager.block_devices.register(std::sync::Arc::new(Disk));
    assert_eq!(id, DeviceId(1));
    let mut buf = [0u8; 512];
    assert_eq!(Disk.read(0, &mut buf), Ok(()));
    assert_eq!(Disk.read(1, &mut buf), Err(BlockError::InvalidLba));
}

struct Recorder {
    written: std::rc::Rc<std::cell::RefCell<Vec<u8>>>,
}

impl TtyProvider for Recorder {
    fn write(&mut self, buf: &[u8]) {
        self.written.borrow_mut().extend_from_slice(buf);
    }
}

#[test]
fn tty_pool_routes_to_current() {
    let first = std::rc::Rc::new(std::cell::RefCell::new(Vec::new()));
    let second = std::rc::Rc::new(std::cell::RefCell::new(Vec::new()));
    let mut pool = TtyPool::new();
    pool.push(b'x');
    pool.write_str("dropped");
    let a = pool.create(TtyHandle::new(Recorder { written: first.clone() }));
    let b = pool.create(TtyHandle::new(Recorder { written: second.clone() }));
    assert_eq!((a, b), (0, 1));
    assert_eq!(pool.len(), 2);
    assert_eq!(pool.current_session(), None);
    pool.switch(b);
    assert_eq!(pool.current_session(), Some(1));
    pool.write_str("hi");
    pool.switch(a);
    pool.write_str("yo");
    pool.push(b'k');
    assert_eq!(*first.borrow(), b"yo".to_vec());
    assert_eq!(*second.borrow(), b"hi".to_vec());
}

#[test]
fn tty_handle_queues_input() {
    let written = std::rc::Rc::new(std::cell::RefCell::new(Vec::new()));
    let mut handle = TtyHandle::new(Recorder { written: written.clone() });
    handle.push(1);
    handle.push(2);
    handle.write_str("ok");
    assert_eq!(*written.borrow(), b"ok".to_vec());
}

#[test]
fn interrupt_controller_writes() {
    let writes = init_writes(32);
    assert_eq!(writes.len(), 16);
    assert_eq!(writes[0], (0x20, 0x11));
    assert_eq!(writes[4], (0x21, 32));
    assert_eq!(writes[6], (0xa1, 40));
    assert_eq!(writes[8], (0x21, 4));
    assert_eq!(writes[10], (0xa1, 2));
    assert_eq!(mask_writes(0b1111_1111_1110_1111), vec![(0x21, 0xef), (0xa1, 0xff)]);
    assert_eq!(enable_timer(), vec![(0x21, 0xee), (0xa1, 0xff)]);
    assert_eq!(end_of_interrupt_writes(36), vec![(0xa0, 0x20), (0x20, 0x20)]);
    assert_eq!(end_of_interrupt_writes(8), vec![(0x20, 0x20)]);
}

#[test]
fn serial_port_writes() {
    let writes = Serial::init_writes(0x3f8, 0);
    assert_eq!(writes.len(), 9);
    assert_eq!(writes[1], (0x3fb, 0x80));
    assert_eq!(writes[8], (0x3f9, 0x01));
    assert!(Serial::init_writes(0x3f8, 1).is_empty());
    let serial = Serial::new(0x3f8);
    assert_eq!(serial.line_status_port(), 0x3fd);
    assert!(Serial::ready_to_send(0x60));
    assert!(!Serial::ready_to_send(0x01));
}
