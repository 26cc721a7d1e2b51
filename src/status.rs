//! The status register: one byte that packs four independent settings.
//!
//! | bits | setting     |
//! |------|-------------|
//! | 0..4 | source      |
//! | 4..6 | auto-off    |
//! | 6    | orientation |
//! | 7    | power       |
use vstd::prelude::*;

use crate::protocol::{get_command, get_frame, reply_value, reply_value_of, set_command, set_frame, STATUS_REGISTER};

verus! {

/// The input the device plays from.
#[derive(Clone, Copy, PartialEq, Eq, Structural, Debug)]
pub enum Source {
    Wifi,
    USB,
    BluetoothPaired,
    BluetoothUnpaired,
    AUX,
    Optical,
}

impl Source {
    /// The four-bit code of the source in the status register.
    pub open spec fn code(self) -> u8 {
        match self {
            Source::Wifi => 0b0010,
            Source::USB => 0b1100,
            Source::BluetoothPaired => 0b1001,
            Source::BluetoothUnpaired => 0b1111,
            Source::AUX => 0b1010,
            Source::Optical => 0b1011,
        }
    }

    /// The source a four-bit code stands for; an unknown code reads as `Optical`.
    pub open spec fn from_code(code: u8) -> Source {
        if code == 0b0010 {
            Source::Wifi
        } else if code == 0b1100 {
            Source::USB
        } else if code == 0b1001 {
            Source::BluetoothPaired
        } else if code == 0b1111 {
            Source::BluetoothUnpaired
        } else if code == 0b1010 {
            Source::AUX
        } else {
            Source::Optical
        }
    }

    pub open spec fn spec_from_bits(bits: u8) -> Source {
        Source::from_code(bits & 0b1111)
    }

    pub open spec fn spec_to_bits(self) -> u8 {
        self.code()
    }

    pub open spec fn spec_label(self) -> Seq<char> {
        match self {
            Source::Wifi => "Wifi"@,
            Source::USB => "USB"@,
            Source::BluetoothPaired | Source::BluetoothUnpaired => "Bluetooth"@,
            Source::AUX => "AUX"@,
            Source::Optical => "Optical"@,
        }
    }

    /// Reads the source from bits 0 to 3 of a status byte.
    pub fn from_bits(bits: u8) -> (r: Source)
        ensures
            r == Source::spec_from_bits(bits),
    {
        match bits & 0b1111 {
            0b0010 => Source::Wifi,
            0b1100 => Source::USB,
            0b1001 => Source::BluetoothPaired,
            0b1111 => Source::BluetoothUnpaired,
            0b1010 => Source::AUX,
            _ => Source::Optical,
        }
    }

    /// The source's contribution to a status byte.
    pub fn to_bits(&self) -> (r: u8)
        ensures
            r == self.spec_to_bits(),
    {
        match self {
            Source::Wifi => 0b0010,
            Source::USB => 0b1100,
            Source::BluetoothPaired => 0b1001,
            Source::BluetoothUnpaired => 0b1111,
            Source::AUX => 0b1010,
            Source::Optical => 0b1011,
        }
    }

    /// The name shown to a user; both Bluetooth codes show as "Bluetooth".
    pub fn label(&self) -> (r: &'static str)
        ensures
            r@ == self.spec_label(),
    {
        match self {
            Source::Wifi => "Wifi",
            Source::USB => "USB",
            Source::BluetoothPaired | Source::BluetoothUnpaired => "Bluetooth",
            Source::AUX => "AUX",
            Source::Optical => "Optical",
        }
    }
}

/// How long the device waits without a signal before it switches itself off.
#[derive(Clone, Copy, PartialEq, Eq, Structural, Debug)]
pub enum AutoOff {
    TwentyMinutes,
    SixtyMinutes,
    Never,
}

impl AutoOff {
    /// The two-bit code of the setting.
    pub open spec fn code(self) -> u8 {
        match self {
            AutoOff::TwentyMinutes => 0b00,
            AutoOff::SixtyMinutes => 0b01,
            AutoOff::Never => 0b10,
        }
    }

    /// The setting a two-bit code stands for; the unused code reads as `TwentyMinutes`.
    pub open spec fn from_code(code: u8) -> AutoOff {
        if code == 0b01 {
            AutoOff::SixtyMinutes
        } else if code == 0b10 {
            AutoOff::Never
        } else {
            AutoOff::TwentyMinutes
        }
    }

    pub open spec fn spec_from_bits(bits: u8) -> AutoOff {
        AutoOff::from_code((bits >> 4) & 0b11)
    }

    pub open spec fn spec_to_bits(self) -> u8 {
        (self.code() << 4) as u8
    }

    pub open spec fn spec_label(self) -> Seq<char> {
        match self {
            AutoOff::TwentyMinutes => "20 minutes"@,
            AutoOff::SixtyMinutes => "60 minutes"@,
            AutoOff::Never => "Never"@,
        }
    }

    /// Reads the setting from bits 4 and 5 of a status byte.
    pub fn from_bits(bits: u8) -> (r: AutoOff)
        ensures
            r == AutoOff::spec_from_bits(bits),
    {
        match (bits >> 4) & 0b11 {
            0b01 => AutoOff::SixtyMinutes,
            0b10 => AutoOff::Never,
            _ => AutoOff::TwentyMinutes,
        }
    }

    /// The setting's contribution to a status byte.
    pub fn to_bits(&self) -> (r: u8)
        ensures
            r == self.spec_to_bits(),
    {
        let code: u8 = match self {
            AutoOff::TwentyMinutes => 0b00,
            AutoOff::SixtyMinutes => 0b01,
            AutoOff::Never => 0b10,
        };
        code << 4
    }

    pub fn label(&self) -> (r: &'static str)
        ensures
            r@ == self.spec_label(),
    {
        match self {
            AutoOff::TwentyMinutes => "20 minutes",
            AutoOff::SixtyMinutes => "60 minutes",
            AutoOff::Never => "Never",
        }
    }
}

/// Which side the main speaker stands on.
#[derive(Clone, Copy, PartialEq, Eq, Structural, Debug)]
pub enum SpeakerOrientation {
    MainIsRight,
    MainIsLeft,
}

impl SpeakerOrientation {
    /// The one-bit code of the orientation.
    pub open spec fn code(self) -> u8 {
        match self {
            SpeakerOrientation::MainIsRight => 0,
            SpeakerOrientation::MainIsLeft => 1,
        }
    }

    pub open spec fn from_code(code: u8) -> SpeakerOrientation {
        if code == 1 {
            SpeakerOrientation::MainIsLeft
        } else {
            SpeakerOrientation::MainIsRight
        }
    }

    pub open spec fn spec_from_bits(bits: u8) -> SpeakerOrientation {
        SpeakerOrientation::from_code((bits >> 6) & 1)
    }

    pub open spec fn spec_to_bits(self) -> u8 {
        (self.code() << 6) as u8
    }

    pub open spec fn spec_label(self) -> Seq<char> {
        match self {
            SpeakerOrientation::MainIsLeft => "Main speaker is on the left"@,
            SpeakerOrientation::MainIsRight => "Main speaker is on the right"@,
        }
    }

    /// Reads the orientation from bit 6 of a status byte.
    pub fn from_bits(bits: u8) -> (r: SpeakerOrientation)
        ensures
            r == SpeakerOrientation::spec_from_bits(bits),
    {
        match (bits >> 6) & 1 {
            1 => SpeakerOrientation::MainIsLeft,
            _ => SpeakerOrientation::MainIsRight,
        }
    }

    /// The orientation's contribution to a status byte.
    pub fn to_bits(&self) -> (r: u8)
        ensures
            r == self.spec_to_bits(),
    {
        let code: u8 = match self {
            SpeakerOrientation::MainIsRight => 0,
            SpeakerOrientation::MainIsLeft => 1,
        };
        code << 6
    }

    pub fn label(&self) -> (r: &'static str)
        ensures
            r@ == self.spec_label(),
    {
        match self {
            SpeakerOrientation::MainIsLeft => "Main speaker is on the left",
            SpeakerOrientation::MainIsRight => "Main speaker is on the right",
        }
    }
}

/// Whether the device is switched on.
#[derive(Clone, Copy, PartialEq, Eq, Structural, Debug)]
pub enum Power {
    On,
    Off,
}

impl Power {
    /// The other power state.
    pub open spec fn spec_invert(self) -> Power {
        match self {
            Power::On => Power::Off,
            Power::Off => Power::On,
        }
    }

    /// The one-bit code of the power state.
    pub open spec fn code(self) -> u8 {
        match self {
            Power::On => 0,
            Power::Off => 1,
        }
    }

    pub open spec fn from_code(code: u8) -> Power {
        if code == 0 {
            Power::On
        } else {
            Power::Off
        }
    }

    pub open spec fn spec_from_bits(bits: u8) -> Power {
        Power::from_code((bits >> 7) & 1)
    }

    pub open spec fn spec_to_bits(self) -> u8 {
        (self.code() << 7) as u8
    }

    pub open spec fn spec_label(self) -> Seq<char> {
        match self {
            Power::On => "On"@,
            Power::Off => "Off"@,
        }
    }

    pub fn invert(&self) -> (r: Power)
        ensures
            r == self.spec_invert(),
            r != *self,
    {
        match self {
            Power::Off => Power::On,
            Power::On => Power::Off,
        }
    }

    /// Reads the power state from bit 7 of a status byte.
    pub fn from_bits(bits: u8) -> (r: Power)
        ensures
            r == Power::spec_from_bits(bits),
    {
        match (bits >> 7) & 1 {
            0 => Power::On,
            _ => Power::Off,
        }
    }

    /// The power state's contribution to a status byte.
    pub fn to_bits(&self) -> (r: u8)
        ensures
            r == self.spec_to_bits(),
    {
        let code: u8 = match self {
            Power::On => 0,
            Power::Off => 1,
        };
        code << 7
    }

    pub fn label(&self) -> (r: &'static str)
        ensures
            r@ == self.spec_label(),
    {
        match self {
            Power::On => "On",
            Power::Off => "Off",
        }
    }
}

/// The whole status register, one field per setting.
#[derive(Clone, Copy, PartialEq, Eq, Structural, Debug)]
pub struct Status {
    pub power: Power,
    pub orientation: SpeakerOrientation,
    pub source: Source,
    pub auto_off: AutoOff,
}

impl Status {
    /// Decoding: each field read from its own bits, with its fallback.
    pub open spec fn spec_from_bits(bits: u8) -> Status {
        Status {
            power: Power::spec_from_bits(bits),
            orientation: SpeakerOrientation::spec_from_bits(bits),
            source: Source::spec_from_bits(bits),
            auto_off: AutoOff::spec_from_bits(bits),
        }
    }

    /// Encoding: the fields' contributions, each at its own offset, or-ed together.
    pub open spec fn spec_to_bits(self) -> u8 {
        self.source.spec_to_bits() | self.auto_off.spec_to_bits() | self.orientation.spec_to_bits()
            | self.power.spec_to_bits()
    }

    /// Decodes a status byte. Every byte decodes: a field whose bits name no
    /// setting takes that field's fallback.
    pub fn from_bits(bits: u8) -> (r: Status)
        ensures
            r == Status::spec_from_bits(bits),
    {
        Status {
            source: Source::from_bits(bits),
            auto_off: AutoOff::from_bits(bits),
            orientation: SpeakerOrientation::from_bits(bits),
            power: Power::from_bits(bits),
        }
    }

    /// Encodes the status as one byte.
    pub fn to_bits(&self) -> (r: u8)
        ensures
            r == self.spec_to_bits(),
    {
        self.source.to_bits() | self.auto_off.to_bits() | self.orientation.to_bits()
            | self.power.to_bits()
    }
}

proof fn lemma_packed_fields(s: u8, a: u8, o: u8, p: u8)
    by (bit_vector)
    requires
        s < 16,
        a < 4,
        o < 2,
        p < 2,
    ensures
        (s | ((a << 4) as u8) | ((o << 6) as u8) | ((p << 7) as u8)) & 0b1111 == s,
        ((s | ((a << 4) as u8) | ((o << 6) as u8) | ((p << 7) as u8)) >> 4) & 0b11 == a,
        ((s | ((a << 4) as u8) | ((o << 6) as u8) | ((p << 7) as u8)) >> 6) & 1 == o,
        ((s | ((a << 4) as u8) | ((o << 6) as u8) | ((p << 7) as u8)) >> 7) & 1 == p,
{
}

/// Decoding an encoded status gives back the same status.
pub proof fn lemma_round_trip(status: Status)
    ensures
        Status::spec_from_bits(status.spec_to_bits()) == status,
{
    lemma_packed_fields(
        status.source.code(),
        status.auto_off.code(),
        status.orientation.code(),
        status.power.code(),
    );
}

/// Decoding reads each field from its own bits: a field whose bits hold a
/// setting's code decodes to that setting, and one whose bits hold no code
/// decodes to the fallback (`Optical` for the source, `TwentyMinutes` for
/// auto-off). Orientation and power have a setting for either bit value.
pub proof fn lemma_decode_fields(bits: u8)
    ensures
        ({
            let status = Status::spec_from_bits(bits);
            &&& (exists|s: Source| s.code() == bits & 0b1111) ==> status.source.code() == bits
                & 0b1111
            &&& (forall|s: Source| s.code() != bits & 0b1111) ==> status.source == Source::Optical
            &&& ((bits >> 4) & 0b11 != 0b11) ==> status.auto_off.code() == (bits >> 4) & 0b11
            &&& ((bits >> 4) & 0b11 == 0b11) ==> status.auto_off == AutoOff::TwentyMinutes
            &&& status.orientation.code() == (bits >> 6) & 1
            &&& status.power.code() == (bits >> 7) & 1
        }),
{
    assert((bits >> 4) & 0b11 < 4) by (bit_vector);
    assert((bits >> 6) & 1 < 2) by (bit_vector);
    assert((bits >> 7) & 1 < 2) by (bit_vector);
    let status = Status::spec_from_bits(bits);
    if forall|s: Source| s.code() != bits & 0b1111 {
        assert(Source::Wifi.code() != bits & 0b1111);
        assert(Source::USB.code() != bits & 0b1111);
        assert(Source::BluetoothPaired.code() != bits & 0b1111);
        assert(Source::BluetoothUnpaired.code() != bits & 0b1111);
        assert(Source::AUX.code() != bits & 0b1111);
    }
}

/// The status carried by a reply to the read-status command, if the reply is
/// long enough to hold one.
pub open spec fn reply_status(reply: Seq<u8>) -> Option<Status> {
    match reply_value_of(reply) {
        Some(bits) => Some(Status::spec_from_bits(bits)),
        None => None,
    }
}

/// `status` after selecting `source`: selecting a source also switches the
/// device on.
pub open spec fn with_source(status: Status, source: Source) -> Status {
    Status { source, power: Power::On, ..status }
}

/// The command that reads the status register.
pub fn get_status_command() -> (cmd: Vec<u8>)
    ensures
        cmd@ == get_frame(STATUS_REGISTER),
{
    get_command(STATUS_REGISTER)
}

/// Decodes the status carried by a reply to the read-status command; `None`
/// when the reply is too short to hold it.
pub fn get_status(reply: &[u8]) -> (r: Option<Status>)
    ensures
        r == reply_status(reply@),
{
    match reply_value(reply) {
        Some(bits) => Some(Status::from_bits(bits)),
        None => None,
    }
}

/// The command that writes `status` to the device.
pub fn set_status(status: &Status) -> (cmd: Vec<u8>)
    ensures
        cmd@ == set_frame(STATUS_REGISTER, status.spec_to_bits()),
{
    set_command(STATUS_REGISTER, status.to_bits())
}

/// The write half of a read-modify-write of the status register: decodes the
/// status from `reply` (the answer to the read-status command), applies `f`
/// and returns the command that writes the result back. `None` when the reply
/// is too short to hold a status.
pub fn change_status<F: Fn(Status) -> Status>(reply: &[u8], f: F) -> (r: Option<Vec<u8>>)
    requires
        forall|s: Status| f.requires((s,)),
    ensures
        r is None <==> reply_status(reply@) is None,
        r matches Some(cmd) ==> exists|changed: Status|
            {
                &&& f.ensures((reply_status(reply@)->0,), changed)
                &&& cmd@ == set_frame(STATUS_REGISTER, changed.spec_to_bits())
            },
{
    match get_status(reply) {
        Some(status) => {
            let changed = f(status);
            Some(set_status(&changed))
        },
        None => None,
    }
}

/// Selects `source` on the device, given the reply to the read-status
/// command: the returned command writes back the status with the new source
/// and with the power on, the other settings unchanged. `None` when the reply
/// is too short to hold a status.
pub fn set_source(reply: &[u8], source: Source) -> (r: Option<Vec<u8>>)
    ensures
        r is None <==> reply_status(reply@) is None,
        r matches Some(cmd) ==> cmd@ == set_frame(
            STATUS_REGISTER,
            with_source(reply_status(reply@)->0, source).spec_to_bits(),
        ),
{
    let select = |status: Status| -> (changed: Status)
        ensures
            changed == with_source(status, source),
        {
            let mut changed = status;
            changed.source = source;
            changed.power = Power::On;
            changed
        };
    change_status(reply, select)
}

/// Selecting a source leaves the device on, with that source, whatever its
/// power state was: the status written back decodes with the power on, the
/// new source, and the other settings as they were.
pub proof fn lemma_set_source_powers_on(status: Status, source: Source)
    ensures
        Status::spec_from_bits(with_source(status, source).spec_to_bits()).power == Power::On,
        Status::spec_from_bits(with_source(status, source).spec_to_bits()).source == source,
        Status::spec_from_bits(with_source(status, source).spec_to_bits()).auto_off
            == status.auto_off,
        Status::spec_from_bits(with_source(status, source).spec_to_bits()).orientation
            == status.orientation,
{
    lemma_round_trip(with_source(status, source));
}

} // verus!
