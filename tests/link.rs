use fms_link::codec::{
    decode_control, decode_status, encode_control, encode_packet, DecodeError, EncodeError,
    MatchContext, CONTROL_PACKET_LEN, PROTOCOL_VERSION,
};
use fms_link::plc::{PLCInputs, PLC};
use fms_link::session::{LinkStatus, StationSession, StatusOutcome};
use fms_link::status::{
    Alliance, AllianceStation, Battery, Control, Date, Mode, TournamentLevel, UdpControlPacket,
};
use fms_link::supervisor::{LinkError, LinkSupervisor};

fn ctx() -> MatchContext {
    MatchContext {
        tournament_level: TournamentLevel::Qualification,
        match_number: 0x0102,
        play_number: 3,
        remaining_seconds: 0x0096,
        date: Date {
            microseconds: 0x0A0B0C0D,
            second: 30,
            minute: 15,
            hour: 13,
            day: 18,
            month: 10,
            year: 124,
        },
    }
}

fn status_bytes(seq: u16) -> Vec<u8> {
    vec![(seq >> 8) as u8, (seq & 0xff) as u8, PROTOCOL_VERSION, 0x20, 0x00, 0x2A, 12, 128]
}

fn red1() -> AllianceStation {
    AllianceStation::new(Alliance::Red, 1)
}

fn blue2() -> AllianceStation {
    AllianceStation::new(Alliance::Blue, 2)
}

const ENABLED_TELEOP: Control = Control { estop: false, enabled: true, mode: Mode::Teleop };

#[test]
fn station_indices() {
    assert_eq!(AllianceStation::new(Alliance::Red, 1).to_ds_number(), 0);
    assert_eq!(AllianceStation::new(Alliance::Red, 2).to_ds_number(), 1);
    assert_eq!(AllianceStation::new(Alliance::Red, 3).to_ds_number(), 2);
    assert_eq!(AllianceStation::new(Alliance::Blue, 1).to_ds_number(), 3);
    assert_eq!(AllianceStation::new(Alliance::Blue, 2).to_ds_number(), 4);
    assert_eq!(AllianceStation::new(Alliance::Blue, 3).to_ds_number(), 5);
}

#[test]
fn station_slot_out_of_range_is_refused() {
    assert!(AllianceStation::try_new(Alliance::Red, 0).is_none());
    assert!(AllianceStation::try_new(Alliance::Blue, 4).is_none());
    assert_eq!(AllianceStation::try_new(Alliance::Blue, 3), Some(AllianceStation::new(Alliance::Blue, 3)));
}

#[test]
fn encode_control_layout() {
    let control = Control { estop: false, enabled: true, mode: Mode::Auto };
    let bytes = encode_control(0x1234, &ctx(), &blue2(), &control).unwrap();
    assert_eq!(bytes.len(), CONTROL_PACKET_LEN);
    assert_eq!(
        bytes,
        vec![
            0x12, 0x34, PROTOCOL_VERSION, 0x06, 0, 4, 2, 0x01, 0x02, 3, 0x0A, 0x0B, 0x0C, 0x0D, 30,
            15, 13, 18, 10, 124, 0x00, 0x96
        ]
    );
}

#[test]
fn encode_control_modes() {
    let mut c = Control { estop: false, enabled: false, mode: Mode::Teleop };
    assert_eq!(encode_control(0, &ctx(), &red1(), &c).unwrap()[3], 0x00);
    c.mode = Mode::Test;
    assert_eq!(encode_control(0, &ctx(), &red1(), &c).unwrap()[3], 0x01);
    c.mode = Mode::Auto;
    assert_eq!(encode_control(0, &ctx(), &red1(), &c).unwrap()[3], 0x02);
}

#[test]
fn estop_clears_enabled_bit() {
    let c = Control { estop: true, enabled: true, mode: Mode::Test };
    let bytes = encode_control(7, &ctx(), &red1(), &c).unwrap();
    assert_eq!(bytes[3], 0x81);
    assert_ne!(bytes[3] & 0x84, 0x84);
}

#[test]
fn encode_invalid_station() {
    let bad = AllianceStation { alliance: Alliance::Red, station: 0 };
    assert_eq!(encode_control(0, &ctx(), &bad, &ENABLED_TELEOP), Err(EncodeError::InvalidStation));
}

#[test]
fn control_round_trip() {
    let p = UdpControlPacket {
        sequence_number: 65535,
        comm_version: PROTOCOL_VERSION,
        control_byte: Control { estop: false, enabled: true, mode: Mode::Auto },
        request_byte: 0,
        alliance_station: AllianceStation::new(Alliance::Blue, 3),
        tournament_level: TournamentLevel::Playoff,
        match_number: 512,
        play_number: 2,
        date: ctx().date,
        remaining_time: 135,
    };
    let bytes = encode_packet(&p).unwrap();
    assert_eq!(decode_control(&bytes), Ok(p));

    let mut stopped = p;
    stopped.control_byte = Control { estop: true, enabled: true, mode: Mode::Test };
    let back = decode_control(&encode_packet(&stopped).unwrap()).unwrap();
    assert_eq!(back.control_byte, Control { estop: true, enabled: false, mode: Mode::Test });
    assert_eq!(back.alliance_station, stopped.alliance_station);
}

#[test]
fn decode_control_errors() {
    let bytes = encode_control(1, &ctx(), &red1(), &ENABLED_TELEOP).unwrap();
    assert_eq!(decode_control(&bytes[..21]), Err(DecodeError::TooShort));
    let mut wrong_version = bytes.clone();
    wrong_version[2] = 9;
    assert_eq!(decode_control(&wrong_version), Err(DecodeError::UnsupportedVersion));
    let mut wrong_station = bytes.clone();
    wrong_station[5] = 6;
    assert_eq!(decode_control(&wrong_station), Err(DecodeError::InvalidStation));
}

#[test]
fn decode_status_fields() {
    let st = decode_status(&[0x01, 0x02, PROTOCOL_VERSION, 0xB6, 0x10, 0xE1, 12, 64]).unwrap();
    assert_eq!(st.sequence_number, 0x0102);
    assert!(st.status_byte.estop);
    assert!(st.status_byte.robot_comms_active);
    assert!(st.status_byte.radio_ping);
    assert!(!st.status_byte.rio_ping);
    assert!(st.status_byte.enabled);
    assert_eq!(st.status_byte.mode, Mode::Auto);
    assert_eq!(st.team_number, 4321);
    assert_eq!(st.battery.whole_volts(), 12);
    assert_eq!(st.battery.fraction_256ths(), 64);
}

#[test]
fn decode_status_errors() {
    assert_eq!(decode_status(&[0, 1, PROTOCOL_VERSION, 0, 0, 1, 12]), Err(DecodeError::TooShort));
    assert_eq!(decode_status(&[]), Err(DecodeError::TooShort));
    assert_eq!(
        decode_status(&[0, 1, 7, 0, 0, 1, 12, 0]),
        Err(DecodeError::UnsupportedVersion)
    );
}

#[test]
fn battery_parts() {
    let b = Battery::from_parts(12, 128);
    assert_eq!(b.voltage, 3200);
    assert_eq!(b.whole_volts(), 12);
    assert_eq!(b.fraction_256ths(), 128);
}

#[test]
fn sequence_wraps_on_send() {
    let mut s = StationSession::new(red1(), 1000, 5000);
    s.sequence = 65535;
    let bytes = s.encode_next(&ctx(), false, 10);
    assert_eq!(&bytes[0..2], &[0xFF, 0xFF]);
    assert_eq!(s.sequence, 0);
    assert_eq!(s.last_sent_at, Some(10));
    let bytes = s.encode_next(&ctx(), false, 30);
    assert_eq!(&bytes[0..2], &[0x00, 0x00]);
    assert_eq!(s.sequence, 1);
}

#[test]
fn control_packet_encode_next_wraps() {
    let mut p = UdpControlPacket {
        sequence_number: 65535,
        comm_version: PROTOCOL_VERSION,
        control_byte: ENABLED_TELEOP,
        request_byte: 0,
        alliance_station: red1(),
        tournament_level: TournamentLevel::Practice,
        match_number: 1,
        play_number: 1,
        date: ctx().date,
        remaining_time: 0,
    };
    let bytes = p.encode_next().unwrap();
    assert_eq!(bytes[0], 0xFF);
    assert_eq!(p.sequence_number, 0);
}

#[test]
fn session_lifecycle() {
    let mut s = StationSession::new(red1(), 1000, 5000);
    assert_eq!(s.link_status, LinkStatus::Unlinked);
    assert_eq!(s.on_datagram(&status_bytes(10), 100), Ok(StatusOutcome::Accepted));
    assert_eq!(s.link_status, LinkStatus::Linked);
    s.check_timeouts(900);
    assert_eq!(s.link_status, LinkStatus::Linked);
    s.check_timeouts(1200);
    assert_eq!(s.link_status, LinkStatus::Degraded);
    s.check_timeouts(5200);
    assert_eq!(s.link_status, LinkStatus::Unlinked);
    assert_eq!(s.on_datagram(&status_bytes(300), 6000), Ok(StatusOutcome::Accepted));
    assert_eq!(s.link_status, LinkStatus::Linked);
}

#[test]
fn stale_status_dropped_after_loss() {
    let mut s = StationSession::new(red1(), 1000, 5000);
    s.on_datagram(&status_bytes(100), 0).unwrap();
    s.check_timeouts(6000);
    assert_eq!(s.link_status, LinkStatus::Unlinked);
    let before = s;
    assert_eq!(s.on_datagram(&status_bytes(50), 6100), Ok(StatusOutcome::Stale));
    assert_eq!(s.on_datagram(&status_bytes(100), 6200), Ok(StatusOutcome::Stale));
    assert_eq!(s, before);
    assert_eq!(s.last_received_at, 0);
    assert_eq!(s.link_status, LinkStatus::Unlinked);
}

#[test]
fn gap_counted_after_loss() {
    let mut s = StationSession::new(red1(), 1000, 5000);
    s.on_datagram(&status_bytes(100), 0).unwrap();
    s.check_timeouts(6000);
    assert_eq!(s.on_datagram(&status_bytes(105), 6100), Ok(StatusOutcome::Accepted));
    assert_eq!(s.missed_packet_count, 1);
    assert_eq!(s.last_received_at, 6100);
    assert_eq!(s.link_status, LinkStatus::Linked);
}

#[test]
fn degraded_recovers_on_fresh_status() {
    let mut s = StationSession::new(red1(), 1000, 5000);
    s.on_datagram(&status_bytes(1), 0).unwrap();
    s.check_timeouts(1500);
    assert_eq!(s.link_status, LinkStatus::Degraded);
    assert_eq!(s.on_datagram(&status_bytes(2), 1600), Ok(StatusOutcome::Accepted));
    assert_eq!(s.link_status, LinkStatus::Linked);
}

#[test]
fn stale_status_is_dropped() {
    let mut s = StationSession::new(red1(), 1000, 5000);
    s.on_datagram(&status_bytes(100), 10).unwrap();
    s.on_datagram(&status_bytes(102), 20).unwrap();
    assert_eq!(s.missed_packet_count, 1);
    let before = s;
    assert_eq!(s.on_datagram(&status_bytes(102), 30), Ok(StatusOutcome::Stale));
    assert_eq!(s.on_datagram(&status_bytes(50), 40), Ok(StatusOutcome::Stale));
    assert_eq!(s, before);
    assert_eq!(s.last_received_at, 20);
    assert_eq!(s.missed_packet_count, 1);
}

#[test]
fn sequence_accepted_across_wrap() {
    let mut s = StationSession::new(red1(), 1000, 5000);
    s.on_datagram(&status_bytes(65535), 10).unwrap();
    assert_eq!(s.on_datagram(&status_bytes(0), 20), Ok(StatusOutcome::Accepted));
    assert_eq!(s.missed_packet_count, 0);
    assert_eq!(s.last_received_at, 20);
}

#[test]
fn gap_of_three_degrades() {
    let mut s = StationSession::new(red1(), 1000, 5000);
    s.on_datagram(&status_bytes(10), 0).unwrap();
    s.on_datagram(&status_bytes(14), 10).unwrap();
    assert_eq!(s.link_status, LinkStatus::Degraded);
    assert_eq!(s.missed_packet_count, 1);
    s.on_datagram(&status_bytes(15), 20).unwrap();
    assert_eq!(s.link_status, LinkStatus::Linked);
    assert_eq!(s.missed_packet_count, 1);
}

#[test]
fn corrupt_datagram_is_not_liveness() {
    let mut s = StationSession::new(red1(), 1000, 5000);
    s.on_datagram(&status_bytes(1), 10).unwrap();
    assert_eq!(s.on_datagram(&[1, 2, 3], 500), Err(DecodeError::TooShort));
    assert_eq!(s.last_received_at, 10);
}

#[test]
fn field_estop_overrides() {
    let mut s = StationSession::new(red1(), 1000, 5000);
    s.on_datagram(&status_bytes(1), 0).unwrap();
    s.set_control(ENABLED_TELEOP);
    let bytes = s.encode_next(&ctx(), true, 0);
    assert_eq!(bytes[3], 0x80);
    let bytes = s.encode_next(&ctx(), false, 20);
    assert_eq!(bytes[3], 0x04);
}

#[test]
fn enabled_suppressed_until_linked() {
    let mut sup = LinkSupervisor::new(1000, 5000, 20);
    assert!(sup.add_station(red1()));
    assert!(sup.set_control(&red1(), ENABLED_TELEOP));
    let out = sup.tick(0, &ctx(), false);
    assert_eq!(out.len(), 1);
    assert_eq!(out[0].bytes[3] & 0x04, 0);

    sup.on_datagram(&red1(), &status_bytes(1), 10).unwrap();
    let out = sup.tick(20, &ctx(), false);
    assert_eq!(out[0].bytes[3] & 0x04, 0x04);

    let out = sup.tick(1500, &ctx(), false);
    assert_eq!(sup.all_link_statuses(), vec![(red1(), LinkStatus::Degraded)]);
    assert_eq!(out[0].bytes[3] & 0x04, 0);
}

/// Transport that refuses every send to one station.
fn send_failing_for(
    broken: AllianceStation,
    packet: &fms_link::supervisor::OutboundPacket,
    delivered: &mut Vec<(AllianceStation, Vec<u8>)>,
) -> Result<(), String> {
    if packet.station == broken {
        Err(String::from("send failed"))
    } else {
        delivered.push((packet.station, packet.bytes.clone()));
        Ok(())
    }
}

#[test]
fn send_failure_is_isolated() {
    let mut sup = LinkSupervisor::new(1000, 5000, 20);
    assert!(sup.add_station(red1()));
    assert!(sup.add_station(blue2()));
    for now in [0u64, 20] {
        let out = sup.tick(now, &ctx(), false);
        assert_eq!(out.len(), 2);
        let mut delivered: Vec<(AllianceStation, Vec<u8>)> = Vec::new();
        let mut failures: Vec<AllianceStation> = Vec::new();
        for p in &out {
            if send_failing_for(red1(), p, &mut delivered).is_err() {
                failures.push(p.station);
            }
        }
        assert_eq!(failures, vec![red1()]);
        assert_eq!(delivered.len(), 1);
        assert_eq!(delivered[0].0, blue2());
        assert_eq!(delivered[0].1[5], 4);
        assert_eq!(delivered[0].1[1], (now / 20) as u8);
    }
}

#[test]
fn send_cadence() {
    let mut sup = LinkSupervisor::new(1000, 5000, 20);
    sup.add_station(red1());
    assert_eq!(sup.tick(0, &ctx(), false).len(), 1);
    assert_eq!(sup.tick(10, &ctx(), false).len(), 0);
    let out = sup.tick(20, &ctx(), false);
    assert_eq!(out.len(), 1);
    assert_eq!(&out[0].bytes[0..2], &[0, 1]);
}

#[test]
fn unknown_source_and_duplicates() {
    let mut sup = LinkSupervisor::new(1000, 5000, 20);
    assert!(sup.add_station(red1()));
    assert!(!sup.add_station(red1()));
    assert!(!sup.add_station(AllianceStation { alliance: Alliance::Blue, station: 9 }));
    assert_eq!(sup.on_datagram(&blue2(), &status_bytes(1), 0), Err(LinkError::UnknownSource));
    assert_eq!(
        sup.on_datagram(&red1(), &[0, 1, 5, 0, 0, 0, 0, 0], 0),
        Err(LinkError::Decode(DecodeError::UnsupportedVersion))
    );
    assert!(!sup.set_control(&blue2(), ENABLED_TELEOP));
}

#[test]
fn removed_station_gets_nothing() {
    let mut sup = LinkSupervisor::new(1000, 5000, 20);
    sup.add_station(red1());
    sup.add_station(blue2());
    assert!(sup.remove_station(&red1()));
    assert!(!sup.remove_station(&red1()));
    let out = sup.tick(0, &ctx(), false);
    assert_eq!(out.len(), 1);
    assert_eq!(out[0].station, blue2());
    assert_eq!(sup.on_datagram(&red1(), &status_bytes(1), 0), Err(LinkError::UnknownSource));
    assert!(sup.session(&red1()).is_none());
    assert_eq!(sup.session(&blue2()).unwrap().sequence, 1);
}

#[test]
fn link_statuses_snapshot() {
    let mut sup = LinkSupervisor::new(1000, 5000, 20);
    sup.add_station(red1());
    sup.add_station(blue2());
    sup.on_datagram(&blue2(), &status_bytes(4), 0).unwrap();
    assert_eq!(
        sup.all_link_statuses(),
        vec![(red1(), LinkStatus::Unlinked), (blue2(), LinkStatus::Linked)]
    );
}

#[test]
fn plc_field_estop() {
    assert!(!PLC::new(PLCInputs { field_estop: true }).get_field_estop());
    assert!(PLC::new(PLCInputs { field_estop: false }).get_field_estop());
}

#[test]
fn disconnect_unlinks_and_reset_clears() {
    let mut s = StationSession::new(blue2(), 1000, 5000);
    s.on_datagram(&status_bytes(1), 0).unwrap();
    s.on_datagram(&status_bytes(3), 10).unwrap();
    s.disconnect();
    assert_eq!(s.link_status, LinkStatus::Unlinked);
    assert_eq!(s.missed_packet_count, 1);
    s.reset();
    assert_eq!(s, StationSession::new(blue2(), 1000, 5000));
}

#[test]
fn well_formedness_checks() {
    let mut sup = LinkSupervisor::new(1000, 5000, 20);
    sup.add_station(red1());
    sup.add_station(blue2());
    assert!(sup.is_well_formed());
    let copy = sup.sessions[0];
    sup.sessions.push(copy);
    assert!(!sup.is_well_formed());
    sup.sessions.pop();
    sup.sessions[1].link_status = LinkStatus::Linked;
    assert!(!sup.sessions[1].is_well_formed());
    assert!(!sup.is_well_formed());
    let bad = LinkSupervisor::new(1000, 5000, 20);
    let mut bad = bad;
    bad.degraded_timeout = 6000;
    assert!(!bad.is_well_formed());
}

#[test]
fn version_and_request_bytes_are_fixed() {
    let p = UdpControlPacket {
        sequence_number: 5,
        comm_version: 9,
        control_byte: ENABLED_TELEOP,
        request_byte: 7,
        alliance_station: red1(),
        tournament_level: TournamentLevel::Practice,
        match_number: 1,
        play_number: 1,
        date: ctx().date,
        remaining_time: 0,
    };
    let bytes = encode_packet(&p).unwrap();
    assert_eq!(bytes[2], PROTOCOL_VERSION);
    assert_eq!(bytes[4], 0);
    let back = decode_control(&bytes).unwrap();
    assert_eq!(back.comm_version, PROTOCOL_VERSION);
    assert_eq!(back.request_byte, 0);
}

#[test]
fn status_after_loss_timeout_relinks() {
    let mut s = StationSession::new(red1(), 1000, 5000);
    s.on_datagram(&status_bytes(10), 0).unwrap();
    s.check_timeouts(1500);
    assert_eq!(s.link_status, LinkStatus::Degraded);
    assert_eq!(s.on_datagram(&status_bytes(300), 6000), Ok(StatusOutcome::Accepted));
    assert_eq!(s.link_status, LinkStatus::Linked);
    assert_eq!(s.last_received_at, 6000);
    assert_eq!(s.missed_packet_count, 1);
}

#[test]
fn gap_before_loss_timeout_stays_degraded() {
    let mut s = StationSession::new(red1(), 1000, 5000);
    s.on_datagram(&status_bytes(10), 0).unwrap();
    assert_eq!(s.on_datagram(&status_bytes(20), 2000), Ok(StatusOutcome::Accepted));
    assert_eq!(s.link_status, LinkStatus::Degraded);
}
