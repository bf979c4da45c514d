//! Link state of one driver station: sequence numbers, liveness timers and
//! the control state it will be sent.

use vstd::prelude::*;
use crate::codec::{
    control_byte_spec, lemma_control_byte,     control_packet_bytes, control_packet_of, decode_status, decode_status_spec, encode_control,
    DecodeError, MatchContext,
};
use crate::status::{AllianceStation, Control, Mode, UdpStatusPacket};

verus! {

#[derive(Clone, Copy, Debug, PartialEq, Eq, Structural)]
pub enum LinkStatus {
    Unlinked,
    Linked,
    Degraded,
}

/// What became of an inbound status.
#[derive(Clone, Copy, Debug, PartialEq, Eq, Structural)]
pub enum StatusOutcome {
    /// Applied to the session.
    Accepted,
    /// Not newer than the last applied status: dropped, nothing changed.
    Stale,
}

/// Number of consecutive missed status packets that degrades a link.
pub const MISSED_FOR_DEGRADED: u32 = 3;

/// How far `a` is ahead of `last` on the 16-bit sequence circle.
pub open spec fn seq_distance(a: u16, last: u16) -> int {
    (a as int - last as int) % 65536
}

/// `a` is newer than `last`: ahead of it by less than half the circle.
pub open spec fn seq_newer(a: u16, last: u16) -> bool {
    0 < seq_distance(a, last) < 32768
}

pub open spec fn next_seq(s: u16) -> u16 {
    if s == 65535 { 0 } else { (s + 1) as u16 }
}

/// Time elapsed since `since`, zero when the clock reads earlier.
pub open spec fn elapsed(now: u64, since: u64) -> u64 {
    if now >= since { (now - since) as u64 } else { 0 }
}

/// Per-station session. Times are milliseconds of a clock supplied by the
/// caller.
#[derive(Clone, Copy, Debug, PartialEq, Eq, Structural)]
pub struct StationSession {
    pub station: AllianceStation,
    pub control: Control,
    pub sequence: u16,
    pub last_status: Option<UdpStatusPacket>,
    pub last_sent_at: Option<u64>,
    pub last_received_at: u64,
    pub missed_packet_count: u16,
    pub link_status: LinkStatus,
    pub degraded_timeout: u64,
    pub lost_timeout: u64,
}

/// Session of a station as it stands when first assigned to a match.
pub open spec fn fresh_session(station: AllianceStation, degraded: u64, lost: u64) -> StationSession {
    StationSession {
        station,
        control: Control { estop: false, enabled: false, mode: Mode::Teleop },
        sequence: 0,
        last_status: None,
        last_sent_at: None,
        last_received_at: 0,
        missed_packet_count: 0,
        link_status: LinkStatus::Unlinked,
        degraded_timeout: degraded,
        lost_timeout: lost,
    }
}

/// Effect of an inbound status received at `now`.
///
/// A session that has never accepted a status takes the first one as its
/// baseline and links. After that, in every link state, a status that is
/// not newer than the last accepted one is stale and changes nothing. A
/// newer one first has the timeouts applied as of `now`, then is applied
/// and counts a gap when packets were skipped. It relinks a lost (unlinked)
/// session; on a linked or degraded session it
/// degrades the link when three or more packets were skipped in a row, and
/// links it otherwise.
pub open spec fn apply_status(s: StationSession, st: UdpStatusPacket, now: u64) -> (
    StationSession,
    StatusOutcome,
) {
    if s.last_status is None {
        (
            StationSession {
                last_status: Some(st),
                last_received_at: now,
                link_status: LinkStatus::Linked,
                ..s
            },
            StatusOutcome::Accepted,
        )
    } else {
        let last = s.last_status->Some_0.sequence_number;
        if !seq_newer(st.sequence_number, last) {
            (s, StatusOutcome::Stale)
        } else {
            let t = apply_timeouts(s, now);
            let missed = seq_distance(st.sequence_number, last) - 1;
            (
                StationSession {
                    last_status: Some(st),
                    last_received_at: now,
                    missed_packet_count: if missed > 0 && s.missed_packet_count < 65535 {
                        (s.missed_packet_count + 1) as u16
                    } else {
                        s.missed_packet_count
                    },
                    link_status: if t.link_status != LinkStatus::Unlinked && missed
                        >= MISSED_FOR_DEGRADED {
                        LinkStatus::Degraded
                    } else {
                        LinkStatus::Linked
                    },
                    ..t
                },
                StatusOutcome::Accepted,
            )
        }
    }
}

/// Effect of the passage of time: past the loss timeout a link is lost,
/// past the degraded timeout it is degraded.
pub open spec fn apply_timeouts(s: StationSession, now: u64) -> StationSession {
    if s.link_status == LinkStatus::Unlinked {
        s
    } else if elapsed(now, s.last_received_at) > s.lost_timeout {
        StationSession { link_status: LinkStatus::Unlinked, ..s }
    } else if elapsed(now, s.last_received_at) > s.degraded_timeout {
        StationSession { link_status: LinkStatus::Degraded, ..s }
    } else {
        s
    }
}

/// Control state actually sent: the field e-stop is added to the
/// station's own, and the robot is enabled only over a linked session and
/// without e-stop.
pub open spec fn effective_control(s: StationSession, field_estop: bool) -> Control {
    Control {
        estop: s.control.estop || field_estop,
        enabled: s.control.enabled && s.link_status == LinkStatus::Linked && !(s.control.estop
            || field_estop),
        mode: s.control.mode,
    }
}

/// Bytes of the next control packet of a session.
pub open spec fn session_packet(
    s: StationSession,
    ctx: MatchContext,
    field_estop: bool,
) -> Seq<u8> {
    control_packet_bytes(
        control_packet_of(s.sequence, ctx, s.station, effective_control(s, field_estop)),
    )
}

/// A control packet is owed once `period` has passed since the last send.
pub open spec fn send_due(s: StationSession, now: u64, period: u64) -> bool {
    match s.last_sent_at {
        None => true,
        Some(t) => now >= t && now - t >= period,
    }
}

impl StationSession {
    pub open spec fn wf(self) -> bool {
        &&& self.station.wf()
        &&& self.degraded_timeout < self.lost_timeout
        &&& (self.link_status != LinkStatus::Unlinked ==> self.last_status is Some)
    }

    pub fn is_well_formed(&self) -> (r: bool)
        ensures
            r == self.wf(),
    {
        1 <= self.station.station && self.station.station <= 3 && self.degraded_timeout
            < self.lost_timeout && (self.link_status == LinkStatus::Unlinked
            || self.last_status.is_some())
    }

    /// A fresh session: unlinked, sequence zero, robot disabled.
    pub fn new(station: AllianceStation, degraded_timeout: u64, lost_timeout: u64) -> (r: Self)
        requires
            station.wf(),
            degraded_timeout < lost_timeout,
        ensures
            r == fresh_session(station, degraded_timeout, lost_timeout),
            r.wf(),
    {
        StationSession {
            station,
            control: Control { estop: false, enabled: false, mode: Mode::Teleop },
            sequence: 0,
            last_status: None,
            last_sent_at: None,
            last_received_at: 0,
            missed_packet_count: 0,
            link_status: LinkStatus::Unlinked,
            degraded_timeout,
            lost_timeout,
        }
    }

    /// Resets the session as at creation, for a new match.
    pub fn reset(&mut self)
        requires
            old(self).wf(),
        ensures
            *final(self) == fresh_session(
                old(self).station,
                old(self).degraded_timeout,
                old(self).lost_timeout,
            ),
            final(self).wf(),
    {
        *self = StationSession::new(self.station, self.degraded_timeout, self.lost_timeout);
    }

    /// Marks the link lost because the connection was torn down.
    pub fn disconnect(&mut self)
        requires
            old(self).wf(),
        ensures
            *final(self) == (StationSession { link_status: LinkStatus::Unlinked, ..*old(self) }),
            final(self).wf(),
    {
        self.link_status = LinkStatus::Unlinked;
    }

    /// Records the control state wanted for this station; it is sent with
    /// the next packet.
    pub fn set_control(&mut self, control: Control)
        requires
            old(self).wf(),
        ensures
            *final(self) == (StationSession { control, ..*old(self) }),
            final(self).wf(),
    {
        self.control = control;
    }

    /// Applies a decoded status received at `now`.
    pub fn on_status(&mut self, st: &UdpStatusPacket, now: u64) -> (r: StatusOutcome)
        requires
            old(self).wf(),
        ensures
            (*final(self), r) == apply_status(*old(self), *st, now),
            final(self).missed_packet_count >= old(self).missed_packet_count,
            final(self).wf(),
    {
        if self.last_status.is_none() {
            self.last_status = Some(*st);
            self.last_received_at = now;
            self.link_status = LinkStatus::Linked;
            return StatusOutcome::Accepted;
        }
        let last: u16 = match self.last_status {
            Some(p) => p.sequence_number,
            None => 0,
        };
        let a: u16 = st.sequence_number;
        let dist: u32 = if a >= last {
            (a - last) as u32
        } else {
            65536u32 - (last as u32) + (a as u32)
        };
        assert(dist as int == seq_distance(a, last));
        if !(0 < dist && dist < 32768) {
            return StatusOutcome::Stale;
        }
        self.check_timeouts(now);
        let missed: u32 = dist - 1;
        if missed > 0 && self.missed_packet_count < 65535 {
            self.missed_packet_count = self.missed_packet_count + 1;
        }
        self.last_status = Some(*st);
        self.last_received_at = now;
        // A lost link comes back linked: the silence that lost it also
        // skipped packets, which says nothing of the link now.
        self.link_status = if self.link_status != LinkStatus::Unlinked && missed
            >= MISSED_FOR_DEGRADED {
            LinkStatus::Degraded
        } else {
            LinkStatus::Linked
        };
        StatusOutcome::Accepted
    }

    /// Decodes and applies a received datagram. A datagram that does not
    /// decode is dropped and leaves the session as it was.
    pub fn on_datagram(&mut self, bytes: &[u8], now: u64) -> (r: Result<StatusOutcome, DecodeError>)
        requires
            old(self).wf(),
        ensures
            final(self).wf(),
            match decode_status_spec(bytes@) {
                Err(e) => r == Err::<StatusOutcome, DecodeError>(e) && *final(self) == *old(self),
                Ok(st) => r == Ok::<StatusOutcome, DecodeError>(apply_status(*old(self), st, now).1)
                    && *final(self) == apply_status(*old(self), st, now).0,
            },
    {
        match decode_status(bytes) {
            Err(e) => Err(e),
            Ok(st) => Ok(self.on_status(&st, now)),
        }
    }

    /// Moves the link to degraded or lost when the timeouts have run out.
    pub fn check_timeouts(&mut self, now: u64)
        requires
            old(self).wf(),
        ensures
            *final(self) == apply_timeouts(*old(self), now),
            final(self).wf(),
    {
        if self.link_status == LinkStatus::Unlinked {
            return;
        }
        let el: u64 = if now >= self.last_received_at {
            now - self.last_received_at
        } else {
            0
        };
        if el > self.lost_timeout {
            self.link_status = LinkStatus::Unlinked;
        } else if el > self.degraded_timeout {
            self.link_status = LinkStatus::Degraded;
        }
    }

    pub fn effective_control(&self, field_estop: bool) -> (r: Control)
        ensures
            r == effective_control(*self, field_estop),
    {
        let estop = self.control.estop || field_estop;
        Control {
            estop,
            enabled: self.control.enabled && self.link_status == LinkStatus::Linked && !estop,
            mode: self.control.mode,
        }
    }

    pub fn send_due(&self, now: u64, period: u64) -> (r: bool)
        ensures
            r == send_due(*self, now, period),
    {
        match self.last_sent_at {
            None => true,
            Some(t) => now >= t && now - t >= period,
        }
    }

    /// Encodes the next control packet, then advances the sequence number
    /// (65535 wraps to 0) and records the send time.
    pub fn encode_next(&mut self, ctx: &MatchContext, field_estop: bool, now: u64) -> (r: Vec<u8>)
        requires
            old(self).wf(),
        ensures
            r@ == session_packet(*old(self), *ctx, field_estop),
            *final(self) == (StationSession {
                sequence: next_seq(old(self).sequence),
                last_sent_at: Some(now),
                ..*old(self)
            }),
            final(self).wf(),
    {
        let control = self.effective_control(field_estop);
        let packet = match encode_control(self.sequence, ctx, &self.station, &control) {
            Ok(b) => b,
            Err(_) => Vec::new(),
        };
        self.sequence = if self.sequence == 65535 {
            0
        } else {
            self.sequence + 1
        };
        self.last_sent_at = Some(now);
        packet
    }
}

/// A fresh session is unlinked; one status links it; silence past the
/// degraded timeout degrades it; silence past the loss timeout unlinks it;
/// and a newer status after that links it again.
pub proof fn lemma_session_lifecycle(
    station: AllianceStation,
    degraded: u64,
    lost: u64,
    first: UdpStatusPacket,
    t_first: u64,
    t_degraded: u64,
    t_lost: u64,
    again: UdpStatusPacket,
    t_again: u64,
)
    requires
        station.wf(),
        degraded < lost,
        t_first <= t_degraded,
        degraded < t_degraded - t_first <= lost,
        t_first <= t_lost,
        t_lost - t_first > lost,
        seq_newer(again.sequence_number, first.sequence_number),
    ensures
        fresh_session(station, degraded, lost).link_status == LinkStatus::Unlinked,
        ({
            let s0 = fresh_session(station, degraded, lost);
            let s1 = apply_status(s0, first, t_first).0;
            let s2 = apply_timeouts(s1, t_degraded);
            let s3 = apply_timeouts(s2, t_lost);
            let s4 = apply_status(s3, again, t_again);
            &&& s1.link_status == LinkStatus::Linked
            &&& s2.link_status == LinkStatus::Degraded
            &&& s3.link_status == LinkStatus::Unlinked
            &&& s4.0.link_status == LinkStatus::Linked
            &&& s4.1 == StatusOutcome::Accepted
        }),
{
}

/// A lost session that receives a status newer than the last one it
/// accepted is linked again, and counts that status as received now.
pub proof fn lemma_relink_after_loss(s: StationSession, st: UdpStatusPacket, now: u64)
    requires
        s.wf(),
        s.link_status == LinkStatus::Unlinked,
        s.last_status is Some,
        seq_newer(st.sequence_number, s.last_status->Some_0.sequence_number),
    ensures
        apply_status(s, st, now).1 == StatusOutcome::Accepted,
        apply_status(s, st, now).0.link_status == LinkStatus::Linked,
        apply_status(s, st, now).0.last_received_at == now,
        apply_status(s, st, now).0.last_status == Some(st),
{
}

/// Once a session has accepted a status, in every link state, a status
/// whose sequence number is not above the last accepted one (without
/// wrapping) is dropped: the session, its receive time and its
/// missed-packet count stay as they were.
pub proof fn lemma_stale_dropped(s: StationSession, st: UdpStatusPacket, now: u64)
    requires
        s.wf(),
        s.last_status is Some,
        st.sequence_number <= s.last_status->Some_0.sequence_number,
        s.last_status->Some_0.sequence_number - st.sequence_number < 32768,
    ensures
        apply_status(s, st, now) == (s, StatusOutcome::Stale),
        apply_status(s, st, now).0.last_received_at == s.last_received_at,
        apply_status(s, st, now).0.missed_packet_count == s.missed_packet_count,
{
}

/// While a session is not linked, whatever control state is set, the
/// packet sent next has the enabled bit clear.
pub proof fn lemma_enabled_suppressed(
    s: StationSession,
    control: Control,
    ctx: MatchContext,
    field_estop: bool,
)
    requires
        s.wf(),
        s.link_status != LinkStatus::Linked,
    ensures
        ({
            let t = StationSession { control, ..s };
            &&& !effective_control(t, field_estop).enabled
            &&& session_packet(t, ctx, field_estop)[3] & 0x04u8 == 0
        }),
{
    let t = StationSession { control, ..s };
    let c = effective_control(t, field_estop);
    lemma_control_byte(c);
    assert(session_packet(t, ctx, field_estop)[3] == control_byte_spec(c));
}

} // verus!
