use ads1115::registers::{
    from_be_bytes, read_register, to_be_bytes, write_register, REG_POINTER_CONFIG,
    REG_POINTER_CONVERT, REG_POINTER_HITHRESH,
};
use ads1115::Transaction;

/// A device that stores each written register value and returns it on a read.
struct EchoDevice {
    regs: [u16; 4],
}

impl EchoDevice {
    fn transfer(&mut self, t: &Transaction) -> [u8; 2] {
        let reg = t.bytes[0] as usize;
        if t.bytes.len() == 3 {
            self.regs[reg] = u16::from_be_bytes([t.bytes[1], t.bytes[2]]);
        }
        self.regs[reg].to_be_bytes()
    }
}

#[test]
fn write_frame_is_pointer_then_big_endian() {
    let t = write_register(0x48, REG_POINTER_CONFIG, 0xC383);
    assert_eq!(t.addr, 0x48);
    assert_eq!(t.bytes, vec![0x01, 0xC3, 0x83]);
    assert_eq!(t.read_len, 2);
}

#[test]
fn read_frame_is_pointer_alone() {
    let t = read_register(0x48, REG_POINTER_CONVERT);
    assert_eq!(t.addr, 0x48);
    assert_eq!(t.bytes, vec![0x00]);
    assert_eq!(t.read_len, 2);
}

#[test]
fn big_endian_conversions() {
    assert_eq!(to_be_bytes(0x1234), [0x12, 0x34]);
    assert_eq!(to_be_bytes(0x00FF), [0x00, 0xFF]);
    assert_eq!(from_be_bytes([0x12, 0x34]), 0x1234);
    assert_eq!(from_be_bytes([0xFF, 0xFF]), 0xFFFF);
    assert_eq!(from_be_bytes([0x00, 0x00]), 0);
}

#[test]
fn write_then_read_round_trip() {
    let mut dev = EchoDevice { regs: [0; 4] };
    for v in [0u16, 1, 0x00FF, 0x1234, 0x8000, 0xFFFF] {
        dev.transfer(&write_register(0x48, REG_POINTER_HITHRESH, v));
        let reply = dev.transfer(&read_register(0x48, REG_POINTER_HITHRESH));
        assert_eq!(from_be_bytes(reply), v);
    }
}

