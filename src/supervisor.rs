//! The set of active station sessions of a match, each driven on its own.

use vstd::prelude::*;
use crate::codec::{decode_status_spec, DecodeError, MatchContext};
use crate::session::{
    apply_status, apply_timeouts, fresh_session, send_due, session_packet, next_seq, LinkStatus,
    StationSession, StatusOutcome,
};
use crate::status::{AllianceStation, Control};

verus! {

#[derive(Clone, Copy, Debug, PartialEq, Eq, Structural)]
pub enum LinkError {
    /// No active session belongs to the datagram's source.
    UnknownSource,
    /// The datagram did not decode; it was dropped.
    Decode(DecodeError),
}

/// One control packet to hand to the transport.
#[derive(Debug)]
pub struct OutboundPacket {
    pub station: AllianceStation,
    pub bytes: Vec<u8>,
}

impl View for OutboundPacket {
    type V = (AllianceStation, Seq<u8>);

    open spec fn view(&self) -> (AllianceStation, Seq<u8>) {
        (self.station, self.bytes@)
    }
}

/// A session after one tick at `now`: timeouts applied, then a packet sent
/// when one is due.
pub open spec fn tick_session(s: StationSession, now: u64, period: u64) -> StationSession {
    let t = apply_timeouts(s, now);
    if send_due(t, now, period) {
        StationSession { sequence: next_seq(t.sequence), last_sent_at: Some(now), ..t }
    } else {
        t
    }
}

/// Packets a tick sends, in the order of the sessions.
pub open spec fn tick_packets(
    ss: Seq<StationSession>,
    now: u64,
    ctx: MatchContext,
    field_estop: bool,
    period: u64,
) -> Seq<(AllianceStation, Seq<u8>)>
    decreases ss.len(),
{
    if ss.len() == 0 {
        seq![]
    } else {
        let prev = tick_packets(ss.drop_last(), now, ctx, field_estop, period);
        let t = apply_timeouts(ss.last(), now);
        if send_due(t, now, period) {
            prev.push((t.station, session_packet(t, ctx, field_estop)))
        } else {
            prev
        }
    }
}

/// Position of the session of `station` among `ss`.
pub open spec fn holds_station(ss: Seq<StationSession>, i: int, station: AllianceStation) -> bool {
    0 <= i < ss.len() && ss[i].station == station
}

pub struct LinkSupervisor {
    pub sessions: Vec<StationSession>,
    pub degraded_timeout: u64,
    pub lost_timeout: u64,
    pub send_period: u64,
}

impl LinkSupervisor {
    /// Every session is well formed and no two serve the same station.
    pub open spec fn wf(&self) -> bool {
        &&& self.degraded_timeout < self.lost_timeout
        &&& forall|i: int| 0 <= i < self.sessions@.len() ==> (#[trigger] self.sessions@[i]).wf()
        &&& forall|i: int, j: int|
            0 <= i < self.sessions@.len() && 0 <= j < self.sessions@.len() && i != j
                ==> self.sessions@[i].station != self.sessions@[j].station
    }

    pub open spec fn has_station(&self, station: AllianceStation) -> bool {
        exists|i: int| holds_station(self.sessions@, i, station)
    }

    /// Tests [`LinkSupervisor::wf`], for callers that cannot prove it.
    pub fn is_well_formed(&self) -> (r: bool)
        ensures
            r == self.wf(),
    {
        if self.degraded_timeout >= self.lost_timeout {
            return false;
        }
        let n = self.sessions.len();
        let mut i: usize = 0;
        while i < n
            invariant
                n == self.sessions@.len(),
                i <= n,
                self.degraded_timeout < self.lost_timeout,
                forall|k: int| 0 <= k < i ==> (#[trigger] self.sessions@[k]).wf(),
                forall|k: int, l: int|
                    0 <= k < i && 0 <= l < n && k != l ==> self.sessions@[k].station
                        != self.sessions@[l].station,
            decreases n - i,
        {
            if !self.sessions[i].is_well_formed() {
                return false;
            }
            let mut j: usize = 0;
            while j < n
                invariant
                    n == self.sessions@.len(),
                    i < n,
                    j <= n,
                    forall|l: int|
                        0 <= l < j && l != i ==> self.sessions@[i as int].station
                            != self.sessions@[l].station,
                decreases n - j,
            {
                if j != i && self.sessions[j].station == self.sessions[i].station {
                    return false;
                }
                j = j + 1;
            }
            i = i + 1;
        }
        true
    }

    pub fn new(degraded_timeout: u64, lost_timeout: u64, send_period: u64) -> (r: Self)
        requires
            degraded_timeout < lost_timeout,
        ensures
            r.wf(),
            r.sessions@.len() == 0,
            r.degraded_timeout == degraded_timeout,
            r.lost_timeout == lost_timeout,
            r.send_period == send_period,
    {
        LinkSupervisor { sessions: Vec::new(), degraded_timeout, lost_timeout, send_period }
    }

    /// Index of the session of `station`, if there is one.
    pub fn find(&self, station: &AllianceStation) -> (r: Option<usize>)
        ensures
            r matches Some(i) ==> holds_station(self.sessions@, i as int, *station),
            r is None <==> !self.has_station(*station),
    {
        let mut i: usize = 0;
        while i < self.sessions.len()
            invariant
                i <= self.sessions@.len(),
                forall|j: int| 0 <= j < i ==> self.sessions@[j].station != *station,
            decreases self.sessions@.len() - i,
        {
            if self.sessions[i].station == *station {
                assert(holds_station(self.sessions@, i as int, *station));
                return Some(i);
            }
            i = i + 1;
        }
        None
    }

    /// Opens a fresh session for a station. Refused (and nothing changes)
    /// when the station is malformed or already has one.
    pub fn add_station(&mut self, station: AllianceStation) -> (r: bool)
        requires
            old(self).wf(),
        ensures
            final(self).wf(),
            r <==> station.wf() && !old(self).has_station(station),
            r ==> final(self).sessions@ == old(self).sessions@.push(
                fresh_session(station, old(self).degraded_timeout, old(self).lost_timeout),
            ),
            !r ==> final(self).sessions@ == old(self).sessions@,
            final(self).degraded_timeout == old(self).degraded_timeout,
            final(self).lost_timeout == old(self).lost_timeout,
            final(self).send_period == old(self).send_period,
    {
        if !(1 <= station.station && station.station <= 3) {
            return false;
        }
        match self.find(&station) {
            Some(_) => false,
            None => {
                let s = StationSession::new(station, self.degraded_timeout, self.lost_timeout);
                let ghost before = self.sessions@;
                assert forall|j: int| 0 <= j < before.len() implies before[j].station != station by {
                    if before[j].station == station {
                        assert(holds_station(before, j, station));
                    }
                }
                self.sessions.push(s);
                assert(self.sessions@ == before.push(s));
                true
            },
        }
    }

    /// Tears down a station's session: it gets no further packet and its
    /// datagrams are refused.
    pub fn remove_station(&mut self, station: &AllianceStation) -> (r: bool)
        requires
            old(self).wf(),
        ensures
            final(self).wf(),
            r <==> old(self).has_station(*station),
            !final(self).has_station(*station),
            r ==> exists|i: int|
                holds_station(old(self).sessions@, i, *station) && final(self).sessions@
                    == old(self).sessions@.remove(i),
            !r ==> final(self).sessions@ == old(self).sessions@,
            final(self).degraded_timeout == old(self).degraded_timeout,
            final(self).lost_timeout == old(self).lost_timeout,
            final(self).send_period == old(self).send_period,
    {
        match self.find(station) {
            None => false,
            Some(i) => {
                let ghost before = self.sessions@;
                self.sessions.remove(i);
                assert forall|k: int| 0 <= k < self.sessions@.len() implies self.sessions@[k].station
                    != *station by {
                    if k < i {
                        assert(self.sessions@[k] == before[k]);
                    } else {
                        assert(self.sessions@[k] == before[k + 1]);
                    }
                }
                true
            },
        }
    }

    /// Records the control state wanted for a station; it goes out with the
    /// station's next packet. `false` when the station has no session.
    pub fn set_control(&mut self, station: &AllianceStation, control: Control) -> (r: bool)
        requires
            old(self).wf(),
        ensures
            final(self).wf(),
            r <==> old(self).has_station(*station),
            r ==> exists|i: int|
                holds_station(old(self).sessions@, i, *station) && final(self).sessions@
                    == old(self).sessions@.update(
                    i,
                    StationSession { control, ..old(self).sessions@[i] },
                ),
            !r ==> final(self).sessions@ == old(self).sessions@,
            final(self).degraded_timeout == old(self).degraded_timeout,
            final(self).lost_timeout == old(self).lost_timeout,
            final(self).send_period == old(self).send_period,
    {
        match self.find(station) {
            None => false,
            Some(i) => {
                let mut s = self.sessions[i];
                s.set_control(control);
                self.sessions[i] = s;
                true
            },
        }
    }

    /// Routes a received datagram to the session of its source station.
    pub fn on_datagram(&mut self, source: &AllianceStation, bytes: &[u8], now: u64) -> (r: Result<
        StatusOutcome,
        LinkError,
    >)
        requires
            old(self).wf(),
        ensures
            final(self).wf(),
            !old(self).has_station(*source) ==> r == Err::<StatusOutcome, LinkError>(
                LinkError::UnknownSource,
            ) && final(self).sessions@ == old(self).sessions@,
            forall|i: int|
                holds_station(old(self).sessions@, i, *source) ==> match decode_status_spec(
                    bytes@,
                ) {
                    Err(e) => r == Err::<StatusOutcome, LinkError>(LinkError::Decode(e))
                        && final(self).sessions@ == old(self).sessions@,
                    Ok(st) => r == Ok::<StatusOutcome, LinkError>(
                        apply_status(old(self).sessions@[i], st, now).1,
                    ) && final(self).sessions@ == old(self).sessions@.update(
                        i,
                        apply_status(old(self).sessions@[i], st, now).0,
                    ),
                },
            final(self).degraded_timeout == old(self).degraded_timeout,
            final(self).lost_timeout == old(self).lost_timeout,
            final(self).send_period == old(self).send_period,
    {
        match self.find(source) {
            None => Err(LinkError::UnknownSource),
            Some(i) => {
                let mut s = self.sessions[i];
                let res = s.on_datagram(bytes, now);
                match res {
                    Err(e) => Err(LinkError::Decode(e)),
                    Ok(o) => {
                        self.sessions[i] = s;
                        Ok(o)
                    },
                }
            },
        }
    }

    /// One tick at `now`: every session has its timeouts applied, and each
    /// whose send period has passed encodes its next control packet. The
    /// packets come back for the transport, one per due station, so that a
    /// failed send to one station cannot hold back another's.
    pub fn tick(&mut self, now: u64, ctx: &MatchContext, field_estop: bool) -> (r: Vec<
        OutboundPacket,
    >)
        requires
            old(self).wf(),
        ensures
            final(self).wf(),
            final(self).sessions@.len() == old(self).sessions@.len(),
            forall|i: int|
                0 <= i < old(self).sessions@.len() ==> #[trigger] final(self).sessions@[i]
                    == tick_session(old(self).sessions@[i], now, old(self).send_period),
            r@.map_values(|p: OutboundPacket| p@) == tick_packets(
                old(self).sessions@,
                now,
                *ctx,
                field_estop,
                old(self).send_period,
            ),
            final(self).degraded_timeout == old(self).degraded_timeout,
            final(self).lost_timeout == old(self).lost_timeout,
            final(self).send_period == old(self).send_period,
    {
        let ghost start = self.sessions@;
        let mut out: Vec<OutboundPacket> = Vec::new();
        let mut i: usize = 0;
        while i < self.sessions.len()
            invariant
                self.wf(),
                self.sessions@.len() == start.len(),
                i <= start.len(),
                self.send_period == old(self).send_period,
                self.degraded_timeout == old(self).degraded_timeout,
                self.lost_timeout == old(self).lost_timeout,
                start == old(self).sessions@,
                forall|j: int| 0 <= j < i ==> #[trigger] self.sessions@[j] == tick_session(
                    start[j],
                    now,
                    self.send_period,
                ),
                forall|j: int| i <= j < start.len() ==> #[trigger] self.sessions@[j] == start[j],
                out@.map_values(|p: OutboundPacket| p@) == tick_packets(
                    start.take(i as int),
                    now,
                    *ctx,
                    field_estop,
                    self.send_period,
                ),
            decreases start.len() - i,
        {
            let mut s = self.sessions[i];
            s.check_timeouts(now);
            assert(start.take(i + 1).drop_last() =~= start.take(i as int));
            if s.send_due(now, self.send_period) {
                let bytes = s.encode_next(ctx, field_estop, now);
                let p = OutboundPacket { station: s.station, bytes };
                let ghost before = out@.map_values(|p: OutboundPacket| p@);
                out.push(p);
                assert(out@.map_values(|p: OutboundPacket| p@) =~= before.push(p@));
            }
            self.sessions[i] = s;
            i = i + 1;
        }
        assert(start.take(start.len() as int) =~= start);
        out
    }

    /// Link status of every active station, in session order.
    pub fn all_link_statuses(&self) -> (r: Vec<(AllianceStation, LinkStatus)>)
        ensures
            r@.len() == self.sessions@.len(),
            forall|i: int|
                0 <= i < r@.len() ==> #[trigger] r@[i] == (
                    self.sessions@[i].station,
                    self.sessions@[i].link_status,
                ),
    {
        let mut r: Vec<(AllianceStation, LinkStatus)> = Vec::new();
        let mut i: usize = 0;
        while i < self.sessions.len()
            invariant
                i <= self.sessions@.len(),
                r@.len() == i,
                forall|j: int|
                    0 <= j < i ==> #[trigger] r@[j] == (
                        self.sessions@[j].station,
                        self.sessions@[j].link_status,
                    ),
            decreases self.sessions@.len() - i,
        {
            r.push((self.sessions[i].station, self.sessions[i].link_status));
            i = i + 1;
        }
        r
    }

    /// Copy of a station's session, if it has one.
    pub fn session(&self, station: &AllianceStation) -> (r: Option<StationSession>)
        ensures
            r is None <==> !self.has_station(*station),
            r matches Some(s) ==> exists|i: int|
                holds_station(self.sessions@, i, *station) && s == self.sessions@[i],
    {
        match self.find(station) {
            None => None,
            Some(i) => Some(self.sessions[i]),
        }
    }
}

/// Every session whose send is due on a tick gets its own packet from that
/// tick, whatever the other sessions hold: one station's trouble cannot
/// keep another's packet from going out.
pub proof fn lemma_tick_isolation(
    ss: Seq<StationSession>,
    now: u64,
    ctx: MatchContext,
    field_estop: bool,
    period: u64,
    i: int,
)
    requires
        0 <= i < ss.len(),
        send_due(apply_timeouts(ss[i], now), now, period),
    ensures
        tick_packets(ss, now, ctx, field_estop, period).contains(
            (
                ss[i].station,
                session_packet(apply_timeouts(ss[i], now), ctx, field_estop),
            ),
        ),
    decreases ss.len(),
{
    let x = (ss[i].station, session_packet(apply_timeouts(ss[i], now), ctx, field_estop));
    let prev = tick_packets(ss.drop_last(), now, ctx, field_estop, period);
    let all = tick_packets(ss, now, ctx, field_estop, period);
    if i == ss.len() - 1 {
        assert(all == prev.push(x));
        assert(all[all.len() - 1] == x);
    } else {
        lemma_tick_isolation(ss.drop_last(), now, ctx, field_estop, period, i);
        let k = choose|k: int| 0 <= k < prev.len() && prev[k] == x;
        assert(all[k] == x);
    }
}

} // verus!
