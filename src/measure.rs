//! The measurement loop: counts windows as interval boundaries pass, asks
//! for a report at each one, and ends the run at the configured window count.
//! Times are milliseconds on a clock that the caller reads.

use vstd::prelude::*;

verus! {

/// What the caller does after a tick.
#[derive(Clone, Copy, Debug, PartialEq, Eq, Structural)]
pub enum Tick {
    /// No boundary passed: pause briefly and tick again.
    Wait,
    /// A window ended: count it, report, and keep measuring.
    Report,
    /// The last window ended: count it, report, stop every worker and end.
    Finish,
}

/// The window limit in force: a configured count above zero; zero or none
/// means the loop never ends by itself.
pub open spec fn window_limit(max_windows: Option<u64>) -> Option<u64> {
    match max_windows {
        Some(m) => if m > 0 {
            Some(m)
        } else {
            None
        },
        None => None,
    }
}

/// `a + b`, held at `u64::MAX`.
pub open spec fn sat_add(a: u64, b: u64) -> u64 {
    if a + b <= u64::MAX {
        (a + b) as u64
    } else {
        u64::MAX
    }
}

/// The mathematical state of a measurement loop.
pub struct LoopState {
    pub interval_ms: u64,
    pub limit: Option<u64>,
    /// Windows completed so far.
    pub window: u64,
    /// When the current window ends.
    pub next_boundary_ms: u64,
}

impl LoopState {
    /// A running loop: a limit is above zero and not reached yet.
    pub open spec fn wf(self) -> bool {
        match self.limit {
            Some(m) => 0 < m && self.window < m,
            None => true,
        }
    }
}

/// One tick at time `now`. Before the boundary nothing changes. At or past
/// it the window count goes up by one; the loop ends when the count reaches
/// the limit, and otherwise the boundary moves on by exactly one interval,
/// counted from the old boundary so that no drift builds up.
pub open spec fn tick_spec(s: LoopState, now: u64) -> (LoopState, Tick) {
    if now < s.next_boundary_ms {
        (s, Tick::Wait)
    } else {
        let window = sat_add(s.window, 1);
        let done = match s.limit {
            Some(m) => window >= m,
            None => false,
        };
        if done {
            (
                LoopState {
                    interval_ms: s.interval_ms,
                    limit: s.limit,
                    window,
                    next_boundary_ms: s.next_boundary_ms,
                },
                Tick::Finish,
            )
        } else {
            (
                LoopState {
                    interval_ms: s.interval_ms,
                    limit: s.limit,
                    window,
                    next_boundary_ms: sat_add(s.next_boundary_ms, s.interval_ms),
                },
                Tick::Report,
            )
        }
    }
}

/// Ticks at each of `times` in turn, up to the tick that ends the loop.
/// Gives the state after them, whether the loop ended, and how many of them
/// crossed a boundary.
pub open spec fn replay(s: LoopState, times: Seq<u64>) -> (LoopState, bool, nat)
    decreases times.len(),
{
    if times.len() == 0 {
        (s, false, 0)
    } else {
        let (n, t) = tick_spec(s, times[0]);
        if t == Tick::Finish {
            (n, true, 1)
        } else {
            let (e, done, crossed) = replay(n, times.drop_first());
            (e, done, if t == Tick::Report {
                crossed + 1
            } else {
                crossed
            })
        }
    }
}

/// Drives window counting and the end of a run.
pub struct MeasurementLoop {
    interval_ms: u64,
    limit: Option<u64>,
    window: u64,
    next_boundary_ms: u64,
}

impl View for MeasurementLoop {
    type V = LoopState;

    closed spec fn view(&self) -> LoopState {
        LoopState {
            interval_ms: self.interval_ms,
            limit: self.limit,
            window: self.window,
            next_boundary_ms: self.next_boundary_ms,
        }
    }
}

impl MeasurementLoop {
    /// A loop started at `now_ms`, whose first window ends one interval later.
    pub fn new(interval_ms: u64, max_windows: Option<u64>, now_ms: u64) -> (r: Self)
        ensures
            r@.interval_ms == interval_ms,
            r@.limit == window_limit(max_windows),
            r@.window == 0,
            r@.next_boundary_ms == sat_add(now_ms, interval_ms),
            r@.wf(),
    {
        let limit = match max_windows {
            Some(m) => {
                if m > 0 {
                    Some(m)
                } else {
                    None
                }
            },
            None => None,
        };
        let next_boundary_ms = if now_ms <= u64::MAX - interval_ms {
            now_ms + interval_ms
        } else {
            u64::MAX
        };
        MeasurementLoop { interval_ms, limit, window: 0, next_boundary_ms }
    }

    /// Windows completed so far.
    pub fn window(&self) -> (r: u64)
        ensures
            r == self@.window,
    {
        self.window
    }

    /// Takes the time now and says what to do; see `tick_spec`.
    pub fn tick(&mut self, now_ms: u64) -> (r: Tick)
        requires
            old(self)@.wf(),
        ensures
            (final(self)@, r) == tick_spec(old(self)@, now_ms),
            r == Tick::Report ==> final(self)@.wf(),
    {
        if now_ms < self.next_boundary_ms {
            return Tick::Wait;
        }
        self.window = if self.window < u64::MAX {
            self.window + 1
        } else {
            u64::MAX
        };
        let done = match self.limit {
            Some(m) => self.window >= m,
            None => false,
        };
        if done {
            Tick::Finish
        } else {
            self.next_boundary_ms = if self.next_boundary_ms <= u64::MAX - self.interval_ms {
                self.next_boundary_ms + self.interval_ms
            } else {
                u64::MAX
            };
            Tick::Report
        }
    }
}

/// Each tick of a running loop that crosses a boundary adds exactly one
/// window, and a tick ends a limited loop exactly when the count reaches the
/// limit; it never goes past it.
pub proof fn lemma_tick_counts_one_window(s: LoopState, now: u64)
    requires
        s.wf(),
    ensures
        ({
            let (n, t) = tick_spec(s, now);
            &&& t == Tick::Wait <==> now < s.next_boundary_ms
            &&& t == Tick::Wait ==> n == s
            &&& s.limit is Some && t != Tick::Wait ==> n.window == s.window + 1
            &&& s.limit is Some ==> (t == Tick::Finish <==> n.window == s.limit->Some_0)
            &&& s.limit is None ==> t != Tick::Finish
            &&& t == Tick::Report ==> n.wf()
        }),
{
}

/// Over any series of ticks, a loop with a window limit counts one window
/// per boundary crossed, never counts past the limit, and has ended exactly
/// when its count has reached the limit.
pub proof fn lemma_replay_ends_exactly_at_limit(s: LoopState, times: Seq<u64>)
    requires
        s.wf(),
        s.limit is Some,
    ensures
        ({
            let (e, done, crossed) = replay(s, times);
            &&& e.window == s.window + crossed
            &&& e.window <= s.limit->Some_0
            &&& done <==> e.window == s.limit->Some_0
        }),
    decreases times.len(),
{
    if times.len() > 0 {
        let (n, t) = tick_spec(s, times[0]);
        lemma_tick_counts_one_window(s, times[0]);
        if t != Tick::Finish {
            lemma_replay_ends_exactly_at_limit(n, times.drop_first());
        }
    }
}

/// Without a window limit the loop never ends by itself, and every boundary
/// crossed adds one window as long as the count has room.
pub proof fn lemma_replay_without_limit_never_ends(s: LoopState, times: Seq<u64>)
    requires
        s.limit is None,
        s.window + times.len() <= u64::MAX,
    ensures
        ({
            let (e, done, crossed) = replay(s, times);
            &&& !done
            &&& e.window == s.window + crossed
        }),
    decreases times.len(),
{
    if times.len() > 0 {
        let (n, t) = tick_spec(s, times[0]);
        lemma_replay_without_limit_never_ends(n, times.drop_first());
    }
}

} // verus!
