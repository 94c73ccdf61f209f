//! Session lifecycle shared by both ends of the link.
//!
//! Pure logic: the bridge/nodes drive it with received messages and a clock. It
//! handles capability negotiation, sequence numbering, a heartbeat deadline
//! watchdog, and the safe-state decision on link loss.

use vstd::prelude::*;
use std::time::{Duration, Instant};
use crate::messages::capability::{Capabilities, Negotiated};
use crate::messages::header::SessionId;
use crate::time::{
    instant_now, instant_duration_since, duration_exceeds, duration_saturating_mul, span_since,
    span_longer, span_times,
};

verus! {

#[derive(Debug, Clone, Copy, PartialEq, Eq, Structural)]
pub enum SessionState {
    Discovering,
    Handshaking,
    Active,
    /// Link impaired (missed deadline) but not yet given up; robot should hold.
    Degraded,
    Closed,
}

/// A session as a mathematical value.
pub ghost struct SessionView {
    pub id: SessionId,
    pub state: SessionState,
    pub local_caps: Capabilities,
    pub negotiated: Option<Negotiated>,
    pub next_seq: u64,
    /// When the last message was received (the heartbeat time).
    pub last_rx: Instant,
    /// Max gap between received messages before the session degrades.
    pub deadline: Duration,
    /// Gap after which the session is given up.
    pub drop_after: Duration,
}

/// The state a watchdog tick at `now` leaves: the step over whether the time since the
/// heartbeat is longer than the drop-out span and than the deadline.
pub open spec fn tick_next(v: SessionView, now: Instant) -> SessionState {
    watchdog_next(
        v.state,
        span_longer(span_since(now, v.last_rx), v.drop_after),
        span_longer(span_since(now, v.last_rx), v.deadline),
    )
}

/// The state after a watchdog tick, given whether the time since the last received
/// message exceeds the drop-out span and the deadline. Only a live session (Active
/// or Degraded) is affected; it closes past the drop-out span and degrades past the
/// deadline.
pub open spec fn watchdog_next(s: SessionState, past_drop: bool, past_deadline: bool) -> SessionState {
    if s == SessionState::Active || s == SessionState::Degraded {
        if past_drop {
            SessionState::Closed
        } else if past_deadline {
            SessionState::Degraded
        } else {
            s
        }
    } else {
        s
    }
}

/// The state after a message is received: a degraded session recovers.
pub open spec fn rx_next(s: SessionState) -> SessionState {
    if s == SessionState::Degraded {
        SessionState::Active
    } else {
        s
    }
}

/// Whether the robot tier must latch to a safe hold in a state.
pub open spec fn safe_state_required(s: SessionState) -> bool {
    s == SessionState::Degraded || s == SessionState::Closed
}

pub struct Session {
    id: SessionId,
    state: SessionState,
    local_caps: Capabilities,
    negotiated: Option<Negotiated>,
    next_seq: u64,
    last_rx: Instant,
    /// Max gap between received messages before declaring `Degraded`.
    deadline: Duration,
    /// Time in `Degraded` before declaring the session `Closed`.
    drop_after: Duration,
}

impl View for Session {
    type V = SessionView;

    closed spec fn view(&self) -> SessionView {
        SessionView {
            id: self.id,
            state: self.state,
            local_caps: self.local_caps,
            negotiated: self.negotiated,
            next_seq: self.next_seq,
            last_rx: self.last_rx,
            deadline: self.deadline,
            drop_after: self.drop_after,
        }
    }
}

impl Session {
    /// A new session, discovering its peer, with the given heartbeat deadline; it is
    /// dropped after ten deadlines without a message (the longest span, where ten
    /// deadlines overflow). The heartbeat time is a fresh reading of the clock.
    pub fn new(id: SessionId, local_caps: Capabilities, deadline: Duration) -> (s: Self)
        ensures
            s@ == (SessionView {
                id,
                state: SessionState::Discovering,
                local_caps,
                negotiated: None,
                next_seq: 0,
                last_rx: s@.last_rx,
                deadline,
                drop_after: span_times(deadline, 10),
            }),
    {
        let drop_after = duration_saturating_mul(deadline, 10);
        Session {
            id,
            state: SessionState::Discovering,
            local_caps,
            negotiated: None,
            next_seq: 0,
            last_rx: instant_now(),
            deadline,
            drop_after,
        }
    }

    pub fn id(&self) -> (r: SessionId)
        ensures
            r == self@.id,
    {
        self.id
    }

    pub fn state(&self) -> (r: SessionState)
        ensures
            r == self@.state,
    {
        self.state
    }

    pub fn negotiated(&self) -> (r: Option<&Negotiated>)
        ensures
            match self@.negotiated {
                Some(n) => r matches Some(x) && *x == n,
                None => r is None,
            },
    {
        self.negotiated.as_ref()
    }

    pub fn local_capabilities(&self) -> (r: &Capabilities)
        ensures
            *r == self@.local_caps,
    {
        &self.local_caps
    }

    pub fn begin_handshake(&mut self)
        ensures
            final(self)@ == (SessionView { state: SessionState::Handshaking, ..old(self)@ }),
    {
        self.state = SessionState::Handshaking;
    }

    /// Apply the peer's advertised capabilities; on agreement the session becomes
    /// `Active`, its heartbeat time is set to a fresh reading of the clock (a value
    /// of which nothing is claimed) and the agreement is returned. Without agreement
    /// nothing changes.
    pub fn on_peer_capabilities(&mut self, peer: &Capabilities) -> (r: Option<&Negotiated>)
        ensures
            match old(self)@.local_caps.negotiate_spec(peer) {
                None => r is None && final(self)@ == old(self)@,
                Some(n) => {
                    &&& r matches Some(x) && *x == n
                    &&& final(self)@ == (SessionView {
                        state: SessionState::Active,
                        negotiated: Some(n),
                        last_rx: final(self)@.last_rx,
                        ..old(self)@
                    })
                },
            },
    {
        let negotiated = match self.local_caps.negotiate(peer) {
            Some(n) => n,
            None => {
                return None;
            },
        };
        self.negotiated = Some(negotiated);
        self.state = SessionState::Active;
        self.last_rx = instant_now();
        self.negotiated.as_ref()
    }

    /// Allocate the next monotonic sequence number for an outbound message.
    pub fn next_seq(&mut self) -> (s: u64)
        requires
            old(self)@.next_seq < u64::MAX,
        ensures
            s == old(self)@.next_seq,
            final(self)@ == (SessionView { next_seq: (s + 1) as u64, ..old(self)@ }),
    {
        let s = self.next_seq;
        self.next_seq = self.next_seq + 1;
        s
    }

    /// Record that a message was received (heartbeat / any inbound) at `now`.
    pub fn on_rx(&mut self, now: Instant)
        ensures
            final(self)@ == (SessionView {
                state: rx_next(old(self)@.state),
                last_rx: now,
                ..old(self)@
            }),
    {
        self.last_rx = now;
        if self.state == SessionState::Degraded {
            self.state = SessionState::Active;
        }
    }

    /// One watchdog step, given whether the time since the last received message
    /// exceeds the drop-out span and the deadline; returns the (possibly changed) state.
    pub fn apply_watchdog(&mut self, past_drop: bool, past_deadline: bool) -> (r: SessionState)
        ensures
            r == watchdog_next(old(self)@.state, past_drop, past_deadline),
            final(self)@ == (SessionView { state: r, ..old(self)@ }),
    {
        if self.state == SessionState::Active || self.state == SessionState::Degraded {
            if past_drop {
                self.state = SessionState::Closed;
            } else if past_deadline {
                self.state = SessionState::Degraded;
            }
        }
        self.state
    }

    /// Advance the watchdog to `now`; returns the (possibly changed) state: a live
    /// session closes once the time since the heartbeat is longer than the drop-out
    /// span, else degrades once it is longer than the deadline.
    pub fn tick(&mut self, now: Instant) -> (r: SessionState)
        ensures
            r == tick_next(old(self)@, now),
            final(self)@ == (SessionView { state: r, ..old(self)@ }),
    {
        if self.state == SessionState::Active || self.state == SessionState::Degraded {
            let idle = instant_duration_since(&now, &self.last_rx);
            let past_drop = duration_exceeds(&idle, &self.drop_after);
            let past_deadline = duration_exceeds(&idle, &self.deadline);
            self.apply_watchdog(past_drop, past_deadline)
        } else {
            self.state
        }
    }

    /// The robot tier must latch to a safe hold whenever this is true (never replay
    /// stale commands).
    pub fn should_safe_state(&self) -> (r: bool)
        ensures
            r == safe_state_required(self@.state),
    {
        self.state == SessionState::Degraded || self.state == SessionState::Closed
    }
}

/// The heartbeat watchdog of a live session whose drop-out span is ten deadlines: a
/// tick closes it once the time since the heartbeat is longer than ten deadlines,
/// degrades it once that time is longer than one deadline, and otherwise leaves it as
/// it was.
pub proof fn lemma_heartbeat_watchdog(v: SessionView, now: Instant)
    requires
        v.state == SessionState::Active || v.state == SessionState::Degraded,
        v.drop_after == span_times(v.deadline, 10),
    ensures
        span_longer(span_since(now, v.last_rx), span_times(v.deadline, 10)) ==> tick_next(v, now)
            == SessionState::Closed,
        !span_longer(span_since(now, v.last_rx), span_times(v.deadline, 10)) && span_longer(
            span_since(now, v.last_rx),
            v.deadline,
        ) ==> tick_next(v, now) == SessionState::Degraded,
        !span_longer(span_since(now, v.last_rx), span_times(v.deadline, 10)) && !span_longer(
            span_since(now, v.last_rx),
            v.deadline,
        ) ==> tick_next(v, now) == v.state,
{
}

/// Once a session is closed, neither the watchdog nor a late message reopens it.
pub proof fn lemma_closed_stays_closed(past_drop: bool, past_deadline: bool)
    ensures
        watchdog_next(SessionState::Closed, past_drop, past_deadline) == SessionState::Closed,
        rx_next(SessionState::Closed) == SessionState::Closed,
{
}

/// The watchdog only worsens a live session (Active, then Degraded, then Closed); it
/// never touches a session that is still discovering or handshaking, and a safe hold
/// it once required stays required until a message arrives.
pub proof fn lemma_watchdog_only_worsens(s: SessionState, past_drop: bool, past_deadline: bool)
    ensures
        s == SessionState::Discovering || s == SessionState::Handshaking ==> watchdog_next(
            s,
            past_drop,
            past_deadline,
        ) == s,
        watchdog_next(s, past_drop, past_deadline) == SessionState::Active ==> s
            == SessionState::Active,
        safe_state_required(s) ==> safe_state_required(watchdog_next(s, past_drop, past_deadline)),
        (s == SessionState::Active || s == SessionState::Degraded) && past_drop ==> watchdog_next(
            s,
            past_drop,
            past_deadline,
        ) == SessionState::Closed,
{
}

/// A received message lifts the safe hold of a degraded session and changes nothing
/// else.
pub proof fn lemma_rx_recovers_degraded(s: SessionState)
    ensures
        rx_next(SessionState::Degraded) == SessionState::Active,
        !safe_state_required(rx_next(SessionState::Degraded)),
        s != SessionState::Degraded ==> rx_next(s) == s,
{
}

} // verus!
