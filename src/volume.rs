//! The volume register: one byte, kept within `0..=MAX_VOLUME`.
use vstd::prelude::*;

use crate::protocol::{get_command, get_frame, reply_value, reply_value_of, set_command, set_frame, VOLUME_REGISTER};

verus! {

/// The loudest volume the device takes.
pub const MAX_VOLUME: u8 = 100;

/// `v` brought into `0..=MAX_VOLUME`: a value below the range becomes 0, one
/// above it becomes `MAX_VOLUME`, one inside it stays.
pub open spec fn clamp_volume(v: int) -> u8 {
    if v < 0 {
        0
    } else if v > MAX_VOLUME {
        MAX_VOLUME
    } else {
        v as u8
    }
}

/// The volume that a request for `volume` sets: `volume` clamped to the range.
pub fn set_volume(volume: u8) -> (corrected: u8)
    ensures
        corrected == clamp_volume(volume as int),
        corrected <= MAX_VOLUME,
        volume <= MAX_VOLUME ==> corrected == volume,
        volume > MAX_VOLUME ==> corrected == MAX_VOLUME,
{
    if volume > MAX_VOLUME {
        MAX_VOLUME
    } else {
        volume
    }
}

/// The volume after moving `current` by `amount`. The result saturates at
/// both ends of the range: it never wraps and never leaves the range.
pub fn change_volume(current: u8, amount: i8) -> (r: u8)
    ensures
        r == clamp_volume(current as int + amount as int),
        r <= MAX_VOLUME,
{
    let target: i16 = current as i16 + amount as i16;
    if target < 0 {
        0
    } else if target > MAX_VOLUME as i16 {
        MAX_VOLUME
    } else {
        target as u8
    }
}

/// The command that reads the volume.
pub fn get_volume_command() -> (cmd: Vec<u8>)
    ensures
        cmd@ == get_frame(VOLUME_REGISTER),
{
    get_command(VOLUME_REGISTER)
}

/// The volume carried by a reply to the read-volume command; `None` when the
/// reply is too short to hold it.
pub fn get_volume(reply: &[u8]) -> (r: Option<u8>)
    ensures
        r == reply_value_of(reply@),
{
    reply_value(reply)
}

/// The command that sets the volume to `volume`, clamped to the range.
pub fn set_volume_command(volume: u8) -> (cmd: Vec<u8>)
    ensures
        cmd@ == set_frame(VOLUME_REGISTER, clamp_volume(volume as int)),
{
    set_command(VOLUME_REGISTER, set_volume(volume))
}

} // verus!
