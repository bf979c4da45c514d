//! Fixed-layout, big-endian encoding of control packets and decoding of
//! status packets.

use vstd::prelude::*;
use bytes::BufMut;
use crate::status::{
    Alliance, AllianceStation, Battery, Control, Date, Mode, TournamentLevel, UdpControlPacket,
    UdpStatus, UdpStatusPacket,
};

verus! {

/// Protocol version carried in byte 2 of every packet.
pub const PROTOCOL_VERSION: u8 = 0;

/// Size in bytes of a control packet.
pub const CONTROL_PACKET_LEN: usize = 22;

/// Size in bytes of a status packet.
pub const STATUS_PACKET_LEN: usize = 8;

#[derive(Clone, Copy, Debug, PartialEq, Eq, Structural)]
pub enum EncodeError {
    /// The station's slot is outside `1..=3`, so it has no protocol index.
    InvalidStation,
}

#[derive(Clone, Copy, Debug, PartialEq, Eq, Structural)]
pub enum DecodeError {
    /// Fewer bytes than the packet's fixed size.
    TooShort,
    /// The version byte is not [`PROTOCOL_VERSION`].
    UnsupportedVersion,
    /// A control packet names a station index outside `0..=5`.
    InvalidStation,
}

/// Match data shared by every station's control packet of one tick.
#[derive(Clone, Copy, Debug, PartialEq, Eq, Structural)]
pub struct MatchContext {
    pub tournament_level: TournamentLevel,
    pub match_number: u16,
    pub play_number: u8,
    pub remaining_seconds: u16,
    pub date: Date,
}

pub open spec fn be16(n: u16) -> Seq<u8> {
    seq![(n >> 8u16) as u8, (n & 0xffu16) as u8]
}

pub open spec fn be32(n: u32) -> Seq<u8> {
    seq![(n >> 24u32) as u8, ((n >> 16u32) & 0xffu32) as u8, ((n >> 8u32) & 0xffu32) as u8, (n & 0xffu32) as u8]
}

pub open spec fn read_be16(hi: u8, lo: u8) -> u16 {
    ((hi as u16) << 8u16) | (lo as u16)
}

pub open spec fn read_be32(a: u8, b: u8, c: u8, d: u8) -> u32 {
    ((a as u32) << 24u32) | ((b as u32) << 16u32) | ((c as u32) << 8u32) | (d as u32)
}

pub open spec fn bit(b: bool) -> u8 {
    if b { 1 } else { 0 }
}

/// Control byte: `estop << 7 | enabled << 2 | mode`, with the enabled bit
/// cleared whenever e-stop is set.
pub open spec fn control_byte_spec(c: Control) -> u8 {
    ((bit(c.estop) << 7u8) | (bit(c.enabled && !c.estop) << 2u8) | (c.mode.code_spec() & 3u8)) as u8
}

/// Wire image of a control packet. Byte 2 is always [`PROTOCOL_VERSION`]
/// and byte 4 always 0, whatever the packet's own fields hold.
pub open spec fn control_packet_bytes(p: UdpControlPacket) -> Seq<u8> {
    be16(p.sequence_number)
        + seq![
        PROTOCOL_VERSION,
        control_byte_spec(p.control_byte),
        0u8,
        p.alliance_station.index_spec(),
        p.tournament_level.code_spec(),
    ] + be16(p.match_number) + seq![p.play_number] + be32(p.date.microseconds) + seq![
        p.date.second,
        p.date.minute,
        p.date.hour,
        p.date.day,
        p.date.month,
        p.date.year,
    ] + be16(p.remaining_time)
}

/// The packet the field sends for a sequence number, match, station and
/// control state: current protocol version, request byte zero.
pub open spec fn control_packet_of(
    seq: u16,
    ctx: MatchContext,
    station: AllianceStation,
    control: Control,
) -> UdpControlPacket {
    UdpControlPacket {
        sequence_number: seq,
        comm_version: PROTOCOL_VERSION,
        control_byte: control,
        request_byte: 0,
        alliance_station: station,
        tournament_level: ctx.tournament_level,
        match_number: ctx.match_number,
        play_number: ctx.play_number,
        date: ctx.date,
        remaining_time: ctx.remaining_seconds,
    }
}

/// Relies on bytes' `BufMut::put_u16` for `Vec<u8>`: appends the two bytes of
/// `n` in big-endian order.
#[verifier::external_body]
fn put_u16_be(buf: &mut Vec<u8>, n: u16)
    requires
        old(buf)@.len() + 2 <= isize::MAX,
    ensures
        final(buf)@ == old(buf)@ + be16(n),
{
    buf.put_u16(n)
}

/// Relies on bytes' `BufMut::put_u32` for `Vec<u8>`: appends the four bytes
/// of `n` in big-endian order.
#[verifier::external_body]
fn put_u32_be(buf: &mut Vec<u8>, n: u32)
    requires
        old(buf)@.len() + 4 <= isize::MAX,
    ensures
        final(buf)@ == old(buf)@ + be32(n),
{
    buf.put_u32(n)
}

pub fn control_byte(c: &Control) -> (r: u8)
    ensures
        r == control_byte_spec(*c),
{
    let e: u8 = if c.estop { 1 } else { 0 };
    let en: u8 = if c.enabled && !c.estop { 1 } else { 0 };
    (e << 7u8) | (en << 2u8) | (c.mode.code() & 3u8)
}

/// Encodes every field of a control packet in the fixed wire layout.
pub fn encode_packet(p: &UdpControlPacket) -> (r: Result<Vec<u8>, EncodeError>)
    ensures
        r is Err <==> !p.alliance_station.wf(),
        r matches Ok(b) ==> b@ == control_packet_bytes(*p),
        r matches Ok(b) ==> b@.len() == CONTROL_PACKET_LEN,
{
    if !(1 <= p.alliance_station.station && p.alliance_station.station <= 3) {
        return Err(EncodeError::InvalidStation);
    }
    let mut packet: Vec<u8> = Vec::new();
    put_u16_be(&mut packet, p.sequence_number);
    packet.push(PROTOCOL_VERSION);
    packet.push(control_byte(&p.control_byte));
    packet.push(0);
    packet.push(p.alliance_station.to_ds_number());
    packet.push(p.tournament_level.code());
    put_u16_be(&mut packet, p.match_number);
    packet.push(p.play_number);
    put_u32_be(&mut packet, p.date.microseconds);
    packet.push(p.date.second);
    packet.push(p.date.minute);
    packet.push(p.date.hour);
    packet.push(p.date.day);
    packet.push(p.date.month);
    packet.push(p.date.year);
    put_u16_be(&mut packet, p.remaining_time);
    assert(packet@ =~= control_packet_bytes(*p));
    Ok(packet)
}

/// Encodes the control packet for one station and tick.
pub fn encode_control(
    seq: u16,
    ctx: &MatchContext,
    station: &AllianceStation,
    control: &Control,
) -> (r: Result<Vec<u8>, EncodeError>)
    ensures
        r is Err <==> !station.wf(),
        r matches Ok(b) ==> b@ == control_packet_bytes(
            control_packet_of(seq, *ctx, *station, *control),
        ),
{
    let p = UdpControlPacket {
        sequence_number: seq,
        comm_version: PROTOCOL_VERSION,
        control_byte: *control,
        request_byte: 0,
        alliance_station: *station,
        tournament_level: ctx.tournament_level,
        match_number: ctx.match_number,
        play_number: ctx.play_number,
        date: ctx.date,
        remaining_time: ctx.remaining_seconds,
    };
    encode_packet(&p)
}

/// Station named by a protocol index; `None` outside `0..=5`.
pub open spec fn station_of_index(i: u8) -> Option<AllianceStation> {
    if i < 3 {
        Some(AllianceStation { alliance: Alliance::Red, station: (i + 1) as u8 })
    } else if i < 6 {
        Some(AllianceStation { alliance: Alliance::Blue, station: (i - 2) as u8 })
    } else {
        None
    }
}

/// Reading of a control packet's bytes, the inverse of
/// [`control_packet_bytes`] on every field it carries.
pub open spec fn decode_control_spec(b: Seq<u8>) -> Result<UdpControlPacket, DecodeError> {
    if b.len() < CONTROL_PACKET_LEN {
        Err(DecodeError::TooShort)
    } else if b[2] != PROTOCOL_VERSION {
        Err(DecodeError::UnsupportedVersion)
    } else {
        match station_of_index(b[5]) {
            None => Err(DecodeError::InvalidStation),
            Some(station) => Ok(
                UdpControlPacket {
                    sequence_number: read_be16(b[0], b[1]),
                    comm_version: b[2],
                    control_byte: Control {
                        estop: b[3] & 0x80u8 != 0,
                        enabled: b[3] & 0x04u8 != 0,
                        mode: Mode::from_bits_spec(b[3]),
                    },
                    request_byte: b[4],
                    alliance_station: station,
                    tournament_level: TournamentLevel::from_code_spec(b[6]),
                    match_number: read_be16(b[7], b[8]),
                    play_number: b[9],
                    date: Date {
                        microseconds: read_be32(b[10], b[11], b[12], b[13]),
                        second: b[14],
                        minute: b[15],
                        hour: b[16],
                        day: b[17],
                        month: b[18],
                        year: b[19],
                    },
                    remaining_time: read_be16(b[20], b[21]),
                },
            ),
        }
    }
}

/// Reading of a status packet: sequence number (bytes 0-1), version (2),
/// status bits (3), team number (4-5), battery whole volts (6) and 256ths (7).
pub open spec fn decode_status_spec(b: Seq<u8>) -> Result<UdpStatusPacket, DecodeError> {
    if b.len() < STATUS_PACKET_LEN {
        Err(DecodeError::TooShort)
    } else if b[2] != PROTOCOL_VERSION {
        Err(DecodeError::UnsupportedVersion)
    } else {
        Ok(
            UdpStatusPacket {
                sequence_number: read_be16(b[0], b[1]),
                comm_version: b[2],
                status_byte: UdpStatus {
                    estop: b[3] & 0x80u8 != 0,
                    robot_comms_active: b[3] & 0x20u8 != 0,
                    radio_ping: b[3] & 0x10u8 != 0,
                    rio_ping: b[3] & 0x08u8 != 0,
                    enabled: b[3] & 0x04u8 != 0,
                    mode: Mode::from_bits_spec(b[3]),
                },
                team_number: read_be16(b[4], b[5]),
                battery: Battery { voltage: read_be16(b[6], b[7]) },
            },
        )
    }
}

fn station_from_index(i: u8) -> (r: Option<AllianceStation>)
    ensures
        r == station_of_index(i),
{
    if i < 3 {
        Some(AllianceStation { alliance: Alliance::Red, station: i + 1 })
    } else if i < 6 {
        Some(AllianceStation { alliance: Alliance::Blue, station: i - 2 })
    } else {
        None
    }
}

fn get_be16(hi: u8, lo: u8) -> (r: u16)
    ensures
        r == read_be16(hi, lo),
{
    ((hi as u16) << 8u16) | (lo as u16)
}

/// Decodes a control packet, the counterpart of [`encode_packet`].
pub fn decode_control(bytes: &[u8]) -> (r: Result<UdpControlPacket, DecodeError>)
    ensures
        r == decode_control_spec(bytes@),
{
    if bytes.len() < CONTROL_PACKET_LEN {
        return Err(DecodeError::TooShort);
    }
    if bytes[2] != PROTOCOL_VERSION {
        return Err(DecodeError::UnsupportedVersion);
    }
    let station = match station_from_index(bytes[5]) {
        None => return Err(DecodeError::InvalidStation),
        Some(s) => s,
    };
    let c: u8 = bytes[3];
    let micro: u32 = ((bytes[10] as u32) << 24u32) | ((bytes[11] as u32) << 16u32) | ((
    bytes[12] as u32) << 8u32) | (bytes[13] as u32);
    Ok(
        UdpControlPacket {
            sequence_number: get_be16(bytes[0], bytes[1]),
            comm_version: bytes[2],
            control_byte: Control {
                estop: c & 0x80u8 != 0,
                enabled: c & 0x04u8 != 0,
                mode: Mode::from_bits(c),
            },
            request_byte: bytes[4],
            alliance_station: station,
            tournament_level: TournamentLevel::from_code(bytes[6]),
            match_number: get_be16(bytes[7], bytes[8]),
            play_number: bytes[9],
            date: Date {
                microseconds: micro,
                second: bytes[14],
                minute: bytes[15],
                hour: bytes[16],
                day: bytes[17],
                month: bytes[18],
                year: bytes[19],
            },
            remaining_time: get_be16(bytes[20], bytes[21]),
        },
    )
}

/// Decodes a status packet. Bits are taken as they stand: the decoder does
/// not judge whether a combination is plausible.
pub fn decode_status(bytes: &[u8]) -> (r: Result<UdpStatusPacket, DecodeError>)
    ensures
        r == decode_status_spec(bytes@),
{
    if bytes.len() < STATUS_PACKET_LEN {
        return Err(DecodeError::TooShort);
    }
    if bytes[2] != PROTOCOL_VERSION {
        return Err(DecodeError::UnsupportedVersion);
    }
    let s: u8 = bytes[3];
    Ok(
        UdpStatusPacket {
            sequence_number: get_be16(bytes[0], bytes[1]),
            comm_version: bytes[2],
            status_byte: UdpStatus {
                estop: s & 0x80u8 != 0,
                robot_comms_active: s & 0x20u8 != 0,
                radio_ping: s & 0x10u8 != 0,
                rio_ping: s & 0x08u8 != 0,
                enabled: s & 0x04u8 != 0,
                mode: Mode::from_bits(s),
            },
            team_number: get_be16(bytes[4], bytes[5]),
            battery: Battery { voltage: get_be16(bytes[6], bytes[7]) },
        },
    )
}

proof fn lemma_be16(n: u16)
    ensures
        read_be16((n >> 8u16) as u8, (n & 0xffu16) as u8) == n,
{
    assert((((((n >> 8u16) as u8) as u16) << 8u16) | (((n & 0xffu16) as u8) as u16)) == n)
        by (bit_vector);
}

proof fn lemma_be32(n: u32)
    ensures
        read_be32(
            (n >> 24u32) as u8,
            ((n >> 16u32) & 0xffu32) as u8,
            ((n >> 8u32) & 0xffu32) as u8,
            (n & 0xffu32) as u8,
        ) == n,
{
    assert((((((n >> 24u32) as u8) as u32) << 24u32) | (((((n >> 16u32) & 0xffu32) as u8) as u32)
        << 16u32) | (((((n >> 8u32) & 0xffu32) as u8) as u32) << 8u32) | (((n & 0xffu32) as u8) as u32))
        == n) by (bit_vector);
}

/// The control byte never carries both the e-stop bit and the enabled bit,
/// and its fields read back as e-stop, enabled-unless-e-stopped, and mode.
pub proof fn lemma_control_byte(c: Control)
    ensures
        !(control_byte_spec(c) & 0x80u8 != 0 && control_byte_spec(c) & 0x04u8 != 0),
        (control_byte_spec(c) & 0x80u8 != 0) == c.estop,
        (control_byte_spec(c) & 0x04u8 != 0) == (c.enabled && !c.estop),
        Mode::from_bits_spec(control_byte_spec(c)) == c.mode,
{
    let e = bit(c.estop);
    let en = bit(c.enabled && !c.estop);
    let m = c.mode.code_spec();
    assert(e <= 1 && en <= 1 && m <= 2);
    assert(e <= 1 && en <= 1 && m <= 2 && (e == 0 || en == 0) ==> {
        let b = ((e << 7u8) | (en << 2u8) | (m & 3u8)) as u8;
        &&& !(b & 0x80u8 != 0 && b & 0x04u8 != 0)
        &&& (b & 0x80u8 != 0) == (e == 1)
        &&& (b & 0x04u8 != 0) == (en == 1)
        &&& b & 3u8 == m
    }) by (bit_vector);
}

/// Decoding an encoded control packet gives back every field, with the
/// enabled flag as sent on the wire (cleared under e-stop), the current
/// protocol version and a zero request byte.
pub proof fn lemma_control_round_trip(p: UdpControlPacket)
    requires
        p.alliance_station.wf(),
    ensures
        decode_control_spec(control_packet_bytes(p)) == Ok::<UdpControlPacket, DecodeError>(
            UdpControlPacket {
                comm_version: PROTOCOL_VERSION,
                control_byte: Control {
                    enabled: p.control_byte.enabled && !p.control_byte.estop,
                    ..p.control_byte
                },
                request_byte: 0,
                ..p
            },
        ),
{
    let b = control_packet_bytes(p);
    lemma_be16(p.sequence_number);
    lemma_be16(p.match_number);
    lemma_be16(p.remaining_time);
    lemma_be32(p.date.microseconds);
    lemma_control_byte(p.control_byte);
    assert(b.len() == 22);
    assert(b[0] == (p.sequence_number >> 8u16) as u8);
    assert(b[1] == (p.sequence_number & 0xffu16) as u8);
    assert(b[3] == control_byte_spec(p.control_byte));
    assert(b[5] == p.alliance_station.index_spec());
    assert(b[7] == (p.match_number >> 8u16) as u8);
    assert(b[8] == (p.match_number & 0xffu16) as u8);
    assert(b[10] == (p.date.microseconds >> 24u32) as u8);
    assert(b[13] == (p.date.microseconds & 0xffu32) as u8);
    assert(b[20] == (p.remaining_time >> 8u16) as u8);
    assert(b[21] == (p.remaining_time & 0xffu16) as u8);
    assert(TournamentLevel::from_code_spec(p.tournament_level.code_spec()) == p.tournament_level);
}

/// Byte 3 of every encoded control packet never has both the e-stop bit
/// and the enabled bit set.
pub proof fn lemma_packet_never_estop_and_enabled(p: UdpControlPacket)
    ensures
        control_packet_bytes(p)[3] & 0x84u8 != 0x84u8,
{
    let c = control_byte_spec(p.control_byte);
    lemma_control_byte(p.control_byte);
    assert(control_packet_bytes(p)[3] == c);
    assert(!(c & 0x80u8 != 0 && c & 0x04u8 != 0) ==> c & 0x84u8 != 0x84u8) by (bit_vector);
}

impl UdpControlPacket {
    /// Encodes this packet, then advances its sequence number (65535 wraps
    /// to 0). A packet that cannot be encoded stays as it was.
    pub fn encode_next(&mut self) -> (r: Result<Vec<u8>, EncodeError>)
        ensures
            r is Err <==> !old(self).alliance_station.wf(),
            r matches Ok(b) ==> b@ == control_packet_bytes(*old(self)),
            r is Ok ==> *final(self) == (UdpControlPacket {
                sequence_number: if old(self).sequence_number == 65535 {
                    0
                } else {
                    (old(self).sequence_number + 1) as u16
                },
                ..*old(self)
            }),
            r is Err ==> *final(self) == *old(self),
    {
        let r = encode_packet(self);
        if r.is_ok() {
            self.sequence_number = if self.sequence_number == 65535 {
                0
            } else {
                self.sequence_number + 1
            };
        }
        r
    }
}

} // verus!
