//! Plain data of the driver-station protocol.

use vstd::prelude::*;

verus! {

/// Operating mode of a robot.
#[derive(Clone, Copy, Debug, PartialEq, Eq, Structural)]
pub enum Mode {
    Teleop,
    Test,
    Auto,
}

impl Mode {
    /// Two-bit wire code of a mode.
    pub open spec fn code_spec(self) -> u8 {
        match self {
            Mode::Teleop => 0,
            Mode::Test => 1,
            Mode::Auto => 2,
        }
    }

    /// Mode read back from the two low bits of a byte; the unused code
    /// three reads as teleop.
    pub open spec fn from_bits_spec(bits: u8) -> Mode {
        if bits & 3 == 1 {
            Mode::Test
        } else if bits & 3 == 2 {
            Mode::Auto
        } else {
            Mode::Teleop
        }
    }

    pub fn code(self) -> (r: u8)
        ensures
            r == self.code_spec(),
            r < 3,
    {
        match self {
            Mode::Teleop => 0,
            Mode::Test => 1,
            Mode::Auto => 2,
        }
    }

    pub fn from_bits(bits: u8) -> (r: Mode)
        ensures
            r == Mode::from_bits_spec(bits),
    {
        let b: u8 = bits & 3;
        if b == 1 {
            Mode::Test
        } else if b == 2 {
            Mode::Auto
        } else {
            Mode::Teleop
        }
    }
}

/// Control state the field asks of one robot.
#[derive(Clone, Copy, Debug, PartialEq, Eq, Structural)]
pub struct Control {
    pub estop: bool,
    pub enabled: bool,
    pub mode: Mode,
}

#[derive(Clone, Copy, Debug, PartialEq, Eq, Structural)]
pub enum Alliance {
    Blue,
    Red,
}

/// One of the six driver-station slots of a match: an alliance and a
/// slot numbered from one to three.
#[derive(Clone, Copy, Debug, PartialEq, Eq, Structural)]
pub struct AllianceStation {
    pub alliance: Alliance,
    pub station: u8,
}

impl AllianceStation {
    /// A station is well formed when its slot lies in `1..=3`.
    pub open spec fn wf(self) -> bool {
        1 <= self.station <= 3
    }

    /// Protocol index of the station: red slots are `0..=2`, blue `3..=5`.
    pub open spec fn index_spec(self) -> u8 {
        match self.alliance {
            Alliance::Red => ((self.station - 1) % 3) as u8,
            Alliance::Blue => ((self.station - 1) % 3 + 3) as u8,
        }
    }

    pub fn new(alliance: Alliance, station: u8) -> (r: Self)
        requires
            1 <= station <= 3,
        ensures
            r.alliance == alliance,
            r.station == station,
            r.wf(),
    {
        Self { alliance, station }
    }

    /// Builds a station, refusing a slot outside `1..=3` so that two robots
    /// can never share one protocol index.
    pub fn try_new(alliance: Alliance, station: u8) -> (r: Option<Self>)
        ensures
            r is Some <==> 1 <= station <= 3,
            r matches Some(s) ==> s.alliance == alliance && s.station == station,
    {
        if 1 <= station && station <= 3 {
            Some(Self { alliance, station })
        } else {
            None
        }
    }

    pub fn to_ds_number(&self) -> (r: u8)
        requires
            self.wf(),
        ensures
            r == self.index_spec(),
            r < 6,
            self.alliance == Alliance::Red ==> r == self.station - 1,
            self.alliance == Alliance::Blue ==> r == self.station + 2,
    {
        let station: u8 = (self.station - 1) % 3;
        match self.alliance {
            Alliance::Blue => station + 3,
            Alliance::Red => station,
        }
    }
}

/// Kind of match being played.
#[derive(Clone, Copy, Debug, PartialEq, Eq, Structural)]
pub enum TournamentLevel {
    MatchTest,
    Practice,
    Qualification,
    Playoff,
}

impl TournamentLevel {
    pub open spec fn code_spec(self) -> u8 {
        match self {
            TournamentLevel::MatchTest => 0,
            TournamentLevel::Practice => 1,
            TournamentLevel::Qualification => 2,
            TournamentLevel::Playoff => 3,
        }
    }

    pub open spec fn from_code_spec(code: u8) -> TournamentLevel {
        if code == 1 {
            TournamentLevel::Practice
        } else if code == 2 {
            TournamentLevel::Qualification
        } else if code == 3 {
            TournamentLevel::Playoff
        } else {
            TournamentLevel::MatchTest
        }
    }

    pub fn code(self) -> (r: u8)
        ensures
            r == self.code_spec(),
    {
        match self {
            TournamentLevel::MatchTest => 0,
            TournamentLevel::Practice => 1,
            TournamentLevel::Qualification => 2,
            TournamentLevel::Playoff => 3,
        }
    }

    pub fn from_code(code: u8) -> (r: TournamentLevel)
        ensures
            r == TournamentLevel::from_code_spec(code),
    {
        if code == 1 {
            TournamentLevel::Practice
        } else if code == 2 {
            TournamentLevel::Qualification
        } else if code == 3 {
            TournamentLevel::Playoff
        } else {
            TournamentLevel::MatchTest
        }
    }
}

/// Wall-clock time carried in a control packet; `year` counts from 1900.
#[derive(Clone, Copy, Debug, PartialEq, Eq, Structural)]
pub struct Date {
    pub microseconds: u32,
    pub second: u8,
    pub minute: u8,
    pub hour: u8,
    pub day: u8,
    pub month: u8,
    pub year: u8,
}

/// Status bits a driver station reports.
#[derive(Clone, Copy, Debug, PartialEq, Eq, Structural)]
pub struct UdpStatus {
    pub estop: bool,
    pub robot_comms_active: bool,
    pub radio_ping: bool,
    pub rio_ping: bool,
    pub enabled: bool,
    pub mode: Mode,
}

/// Battery voltage in the field hardware's fixed-point form: the high byte
/// is the whole volts, the low byte the fraction in 256ths of a volt.
#[derive(Clone, Copy, Debug, PartialEq, Eq, Structural)]
pub struct Battery {
    pub voltage: u16,
}

impl Battery {
    pub fn whole_volts(&self) -> (r: u8)
        ensures
            r as int == self.voltage as int / 256,
    {
        (self.voltage / 256) as u8
    }

    pub fn fraction_256ths(&self) -> (r: u8)
        ensures
            r as int == self.voltage as int % 256,
    {
        (self.voltage % 256) as u8
    }

    /// Voltage in 1/256ths of a volt: `whole * 256 + fraction`.
    pub fn from_parts(whole: u8, fraction: u8) -> (r: Battery)
        ensures
            r.voltage as int == whole as int * 256 + fraction as int,
    {
        Battery { voltage: (whole as u16) * 256 + (fraction as u16) }
    }
}

/// Everything the field sends a driver station in one control packet.
#[derive(Clone, Copy, Debug, PartialEq, Eq, Structural)]
pub struct UdpControlPacket {
    pub sequence_number: u16,
    pub comm_version: u8,
    pub control_byte: Control,
    pub request_byte: u8,
    pub alliance_station: AllianceStation,
    pub tournament_level: TournamentLevel,
    pub match_number: u16,
    pub play_number: u8,
    pub date: Date,
    pub remaining_time: u16,
}

/// Everything a driver station reports in one status packet.
#[derive(Clone, Copy, Debug, PartialEq, Eq, Structural)]
pub struct UdpStatusPacket {
    pub sequence_number: u16,
    pub comm_version: u8,
    pub status_byte: UdpStatus,
    pub team_number: u16,
    pub battery: Battery,
}

} // verus!
