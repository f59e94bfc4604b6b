//! Register framing: each transaction writes a pointer byte, optionally
//! followed by a big-endian 16-bit value, and reads bytes back.
use vstd::prelude::*;

verus! {

/// Mask of the pointer byte's register bits.
pub const REG_POINTER_MASK: u8 = 0x03;
/// Conversion result register.
pub const REG_POINTER_CONVERT: u8 = 0x00;
/// Configuration register.
pub const REG_POINTER_CONFIG: u8 = 0x01;
/// Low threshold register.
pub const REG_POINTER_LOWTHRESH: u8 = 0x02;
/// High threshold register.
pub const REG_POINTER_HITHRESH: u8 = 0x03;

/// Number of bytes a register transaction reads back.
pub const REGISTER_REPLY_LEN: usize = 2;

/// One combined bus transaction: write `bytes` to the device at `addr`, then,
/// after a repeated start, read `read_len` bytes from it.
#[derive(Debug, Clone, PartialEq, Eq)]
pub struct Transaction {
    pub addr: u8,
    pub bytes: Vec<u8>,
    pub read_len: usize,
}

/// The high byte of a 16-bit value.
pub open spec fn high_byte(v: u16) -> u8 {
    (v / 256) as u8
}

/// The low byte of a 16-bit value.
pub open spec fn low_byte(v: u16) -> u8 {
    (v % 256) as u8
}

/// The value of two bytes read most significant first.
pub open spec fn be_value(hi: u8, lo: u8) -> u16 {
    (hi as int * 256 + lo as int) as u16
}

/// The bytes that write `value` to `register`.
pub open spec fn write_frame(register: u8, value: u16) -> Seq<u8> {
    seq![register, high_byte(value), low_byte(value)]
}

/// The bytes that select `register` for reading.
pub open spec fn read_frame(register: u8) -> Seq<u8> {
    seq![register]
}

/// A device that keeps what was last written to a register and returns it on
/// a read of that register: the two bytes it replies with when `written` was
/// the last write frame and `read` selects a register.
pub open spec fn echo_reply(written: Seq<u8>, read: Seq<u8>) -> Seq<u8> {
    if written.len() == 3 && read.len() == 1 && written[0] == read[0] {
        written.subrange(1, 3)
    } else {
        seq![0u8, 0u8]
    }
}

/// Splits a value into its big-endian bytes.
pub fn to_be_bytes(value: u16) -> (r: [u8; 2])
    ensures
        r[0] == high_byte(value),
        r[1] == low_byte(value),
{
    [(value / 256) as u8, (value % 256) as u8]
}

/// Reads a register value from the two bytes the device sent, most
/// significant first.
pub fn from_be_bytes(bytes: [u8; 2]) -> (r: u16)
    ensures
        r == be_value(bytes[0], bytes[1]),
{
    let hi = bytes[0] as u16;
    let lo = bytes[1] as u16;
    hi * 256 + lo
}

/// The transaction that writes `value` to `register` of the device at `addr`;
/// the device answers it with two bytes.
pub fn write_register(addr: u8, register: u8, value: u16) -> (t: Transaction)
    ensures
        t.addr == addr,
        t.bytes@ == write_frame(register, value),
        t.read_len == REGISTER_REPLY_LEN,
{
    let be = to_be_bytes(value);
    let mut bytes: Vec<u8> = Vec::new();
    bytes.push(register);
    bytes.push(be[0]);
    bytes.push(be[1]);
    assert(bytes@ =~= write_frame(register, value));
    Transaction { addr, bytes, read_len: REGISTER_REPLY_LEN }
}

/// The transaction that reads `register` of the device at `addr`.
pub fn read_register(addr: u8, register: u8) -> (t: Transaction)
    ensures
        t.addr == addr,
        t.bytes@ == read_frame(register),
        t.read_len == REGISTER_REPLY_LEN,
{
    let mut bytes: Vec<u8> = Vec::new();
    bytes.push(register);
    assert(bytes@ =~= read_frame(register));
    Transaction { addr, bytes, read_len: REGISTER_REPLY_LEN }
}

/// Splitting a value into bytes and reading them back gives the value.
pub proof fn lemma_be_round_trip(value: u16)
    ensures
        be_value(high_byte(value), low_byte(value)) == value,
{
}

/// Writing `value` to a register and then reading that register from a device
/// that keeps what was written yields `value`.
pub proof fn lemma_register_round_trip(register: u8, value: u16)
    ensures
        ({
            let reply = echo_reply(write_frame(register, value), read_frame(register));
            reply.len() == 2 && be_value(reply[0], reply[1]) == value
        }),
{
    lemma_be_round_trip(value);
}

} // verus!
