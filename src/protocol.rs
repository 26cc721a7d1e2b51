//! Command and reply frames of the device's request/response protocol.
//!
//! A read is `G <register> 0x80`, a write is `S <register> 0x81 <value>`.
//! The device answers with a short frame whose byte at offset 3 carries the
//! register's value; the rest of the reply is not interpreted.
use vstd::prelude::*;

verus! {

/// First byte of a read command (ASCII `G`).
pub const GET: u8 = 0x47;

/// First byte of a write command (ASCII `S`).
pub const SET: u8 = 0x53;

/// Third byte of a read command.
pub const GET_FLAG: u8 = 0x80;

/// Third byte of a write command.
pub const SET_FLAG: u8 = 0x81;

/// The register that holds the packed status byte.
pub const STATUS_REGISTER: u8 = 0x30;

/// The register that holds the volume.
pub const VOLUME_REGISTER: u8 = 0x25;

/// Offset of the register's value in a reply frame.
pub const VALUE_OFFSET: usize = 3;

/// The command that reads `register`.
pub open spec fn get_frame(register: u8) -> Seq<u8> {
    seq![GET, register, GET_FLAG]
}

/// The command that writes `value` to `register`.
pub open spec fn set_frame(register: u8, value: u8) -> Seq<u8> {
    seq![SET, register, SET_FLAG, value]
}

/// The value a reply carries, if the reply is long enough to hold one.
pub open spec fn reply_value_of(reply: Seq<u8>) -> Option<u8> {
    if reply.len() > VALUE_OFFSET {
        Some(reply[VALUE_OFFSET as int])
    } else {
        None
    }
}

/// Builds the command that reads `register`.
pub fn get_command(register: u8) -> (cmd: Vec<u8>)
    ensures
        cmd@ == get_frame(register),
{
    let cmd = vec![GET, register, GET_FLAG];
    assert(cmd@ =~= get_frame(register));
    cmd
}

/// Builds the command that writes `value` to `register`.
pub fn set_command(register: u8, value: u8) -> (cmd: Vec<u8>)
    ensures
        cmd@ == set_frame(register, value),
{
    let cmd = vec![SET, register, SET_FLAG, value];
    assert(cmd@ =~= set_frame(register, value));
    cmd
}

/// Reads the value byte of a reply; `None` when the reply is too short to
/// hold it.
pub fn reply_value(reply: &[u8]) -> (r: Option<u8>)
    ensures
        r == reply_value_of(reply@),
{
    if reply.len() > VALUE_OFFSET {
        Some(reply[VALUE_OFFSET])
    } else {
        None
    }
}

} // verus!
