//! The ping/pong liveness protocol of one sink session.

use vstd::prelude::*;

verus! {

/// Liveness state of a registered session. Times are milliseconds on a
/// monotonic clock.
#[derive(Clone, Copy, Debug, PartialEq, Eq, Structural)]
pub struct Liveness {
    pub awaiting_pong: bool,
    pub last_ping_ms: Option<u64>,
    pub missed_pings: u32,
}

/// What a tick of the ping timer asks for.
#[derive(Clone, Copy, Debug, PartialEq, Eq, Structural)]
pub enum TickAction {
    /// Nothing to do on this tick.
    Idle,
    /// Send a ping now.
    SendPing,
    /// Too many pings went unanswered: close the session.
    Close,
}

/// Time from `since` to `now`, zero if the clock reads earlier.
pub open spec fn elapsed(now: u64, since: u64) -> int {
    if now >= since {
        now - since
    } else {
        0
    }
}

/// One tick at `now`: with no ping outstanding, send one; with one outstanding
/// past `pong_timeout`, count a miss and either close (at `max_missed` misses)
/// or send a fresh ping; with one outstanding inside the window, do nothing.
pub open spec fn tick_spec(l: Liveness, now: u64, pong_timeout: u64, max_missed: u32) -> (Liveness, TickAction) {
    if !l.awaiting_pong {
        (Liveness { awaiting_pong: true, last_ping_ms: Some(now), missed_pings: l.missed_pings }, TickAction::SendPing)
    } else {
        match l.last_ping_ms {
            Some(lp) => if elapsed(now, lp) >= pong_timeout {
                let missed = if l.missed_pings < u32::MAX { (l.missed_pings + 1) as u32 } else { l.missed_pings };
                if missed >= max_missed {
                    (Liveness { awaiting_pong: l.awaiting_pong, last_ping_ms: l.last_ping_ms, missed_pings: missed }, TickAction::Close)
                } else {
                    (Liveness { awaiting_pong: true, last_ping_ms: Some(now), missed_pings: missed }, TickAction::SendPing)
                }
            } else {
                (l, TickAction::Idle)
            },
            None => (l, TickAction::Idle),
        }
    }
}

/// The state after the ticks at `times`, with no frame from the sink in
/// between, and the action of the last tick. A close ends the run.
pub open spec fn run_ticks(l: Liveness, times: Seq<u64>, pong_timeout: u64, max_missed: u32) -> (Liveness, TickAction)
    decreases times.len(),
{
    if times.len() == 0 {
        (l, TickAction::Idle)
    } else {
        let (next, action) = tick_spec(l, times[0], pong_timeout, max_missed);
        if action == TickAction::Close || times.len() == 1 {
            (next, action)
        } else {
            run_ticks(next, times.subrange(1, times.len() as int), pong_timeout, max_missed)
        }
    }
}

/// Every tick comes at least `gap` after the one before, and the first at
/// least `gap` after `start`.
pub open spec fn spaced(start: u64, times: Seq<u64>, gap: u64) -> bool {
    &&& times.len() > 0 ==> times[0] >= start + gap
    &&& forall|i: int| 1 <= i < times.len() ==> #[trigger] times[i] >= times[i - 1] + gap
}

/// A frame at `now` answers the outstanding ping: it comes within the pong window.
pub open spec fn answers_ping(l: Liveness, now: u64, pong_timeout: u64) -> bool {
    l.awaiting_pong && match l.last_ping_ms {
        Some(lp) => elapsed(now, lp) <= pong_timeout,
        None => false,
    }
}

/// A ping is outstanding and its pong window is still open at `now`.
pub open spec fn ping_pending(l: Liveness, now: u64, pong_timeout: u64) -> bool {
    l.awaiting_pong && match l.last_ping_ms {
        Some(lp) => elapsed(now, lp) < pong_timeout,
        None => false,
    }
}

/// The state after a well-formed frame from the sink arrives at `now`.
pub open spec fn frame_spec(l: Liveness, now: u64, pong_timeout: u64) -> Liveness {
    if answers_ping(l, now, pong_timeout) {
        Liveness { awaiting_pong: false, missed_pings: 0, ..l }
    } else {
        l
    }
}

impl Liveness {
    /// A session that has sent no ping yet.
    pub fn new() -> (r: Self)
        ensures
            !r.awaiting_pong,
            r.last_ping_ms is None,
            r.missed_pings == 0,
    {
        Liveness { awaiting_pong: false, last_ping_ms: None, missed_pings: 0 }
    }

    /// A tick of the ping timer at `now`.
    pub fn tick(&mut self, now: u64, pong_timeout: u64, max_missed: u32) -> (r: TickAction)
        ensures
            (*final(self), r) == tick_spec(*old(self), now, pong_timeout, max_missed),
    {
        if !self.awaiting_pong {
            self.awaiting_pong = true;
            self.last_ping_ms = Some(now);
            return TickAction::SendPing;
        }
        match self.last_ping_ms {
            Some(lp) => {
                let waited: u64 = if now >= lp { now - lp } else { 0 };
                if waited >= pong_timeout {
                    if self.missed_pings < u32::MAX {
                        self.missed_pings = self.missed_pings + 1;
                    }
                    if self.missed_pings >= max_missed {
                        TickAction::Close
                    } else {
                        self.awaiting_pong = true;
                        self.last_ping_ms = Some(now);
                        TickAction::SendPing
                    }
                } else {
                    TickAction::Idle
                }
            },
            None => TickAction::Idle,
        }
    }

    /// A pong from the sink: nothing is outstanding and no ping counts as missed.
    pub fn on_pong(&mut self)
        ensures
            !final(self).awaiting_pong,
            final(self).missed_pings == 0,
            final(self).last_ping_ms == old(self).last_ping_ms,
    {
        self.awaiting_pong = false;
        self.missed_pings = 0;
    }

    /// Any well-formed frame from the sink at `now`: inside the pong window of
    /// the outstanding ping it counts as the answer.
    pub fn on_frame(&mut self, now: u64, pong_timeout: u64)
        ensures
            *final(self) == frame_spec(*old(self), now, pong_timeout),
    {
        if self.awaiting_pong {
            if let Some(lp) = self.last_ping_ms {
                let waited: u64 = if now >= lp { now - lp } else { 0 };
                if waited <= pong_timeout {
                    self.awaiting_pong = false;
                    self.missed_pings = 0;
                }
            }
        }
    }
}

/// At most one ping is outstanding: while a ping waits inside its pong window, a
/// tick sends no other; and whenever a tick sends one, that ping is the one
/// outstanding afterwards.
pub proof fn lemma_one_ping_outstanding(l: Liveness, now: u64, pong_timeout: u64, max_missed: u32)
    ensures
        ping_pending(l, now, pong_timeout) ==> tick_spec(l, now, pong_timeout, max_missed).1 == TickAction::Idle,
        tick_spec(l, now, pong_timeout, max_missed).1 == TickAction::SendPing ==> {
            let next = tick_spec(l, now, pong_timeout, max_missed).0;
            next.awaiting_pong && next.last_ping_ms == Some(now)
        },
{
}

/// After a ping goes out, `max_missed` ticks that each come a full pong window
/// after the previous ping, with nothing heard from the sink, close the session.
pub proof fn lemma_missed_pings_close(l: Liveness, times: Seq<u64>, pong_timeout: u64, max_missed: u32)
    requires
        l.awaiting_pong,
        l.last_ping_ms is Some,
        l.missed_pings < max_missed,
        l.missed_pings + times.len() >= max_missed,
        spaced(l.last_ping_ms->0, times, pong_timeout),
    ensures
        run_ticks(l, times, pong_timeout, max_missed).1 == TickAction::Close,
    decreases times.len(),
{
    let (next, action) = tick_spec(l, times[0], pong_timeout, max_missed);
    if action != TickAction::Close {
        assert(next.missed_pings == l.missed_pings + 1);
        assert(times.len() > 1);
        let rest = times.subrange(1, times.len() as int);
        assert(spaced(next.last_ping_ms->0, rest, pong_timeout)) by {
            assert forall|i: int| 1 <= i < rest.len() implies #[trigger] rest[i] >= rest[i - 1] + pong_timeout by {
                assert(times[i + 1] >= times[i] + pong_timeout);
            }
            assert(times[1] >= times[0] + pong_timeout);
        }
        lemma_missed_pings_close(next, rest, pong_timeout, max_missed);
    }
}

} // verus!
