//! The ticker: a metronome state machine over an abstract monotonic
//! clock.
//!
//! Instants and durations are nanoseconds (`u64`) on the caller's
//! monotonic clock; the tempo is carried both as the IEEE-754 bit
//! pattern the protocol speaks (`bpm`) and as the derived tick interval
//! in nanoseconds, which the caller computes as `60 / (4 * bpm)`
//! seconds.  The caller runs the event loop: it fires [`Ticker::on_deadline`]
//! when the deadline passes while playing, and feeds commands into the
//! other transitions.

use vstd::prelude::*;
use crate::models::Pattern;
use crate::store::{NamedMap, has_key, lookup};

verus! {

/// A command for the ticker: transport control and tempo.  `SetBPM`
/// carries the new tempo's IEEE-754 bit pattern.
#[derive(Debug, PartialEq)]
pub enum TickerCommand {
    Play,
    Pause,
    Stop,
    SetBPM { bpm: u32 },
}

/// The ticker's state: transport flag, tempo, tick interval, the
/// absolute deadline of the next tick, the residual to the next tick
/// saved while paused, and the current tick position (`None` while
/// stopped).
#[derive(Debug, PartialEq)]
pub struct Ticker {
    pub playing: bool,
    pub bpm: u32,
    pub interval: u64,
    pub next_tick: u64,
    pub remaining: u64,
    pub tick: Option<usize>,
}

/// The highest tick the current context allows: `None` to skip the
/// cycle (pattern missing or empty), else `4 * page_count - 1` in
/// pattern mode — clamped to `usize::MAX` for degenerate page counts —
/// and 15 (one bar) in track mode.
pub open spec fn spec_cycle_limit(
    tbl: Seq<(Seq<char>, crate::models::PatternView)>,
    ctx: Option<Seq<char>>,
) -> Option<int> {
    match ctx {
        Some(name) => {
            if has_key(tbl, name) && lookup(tbl, name).page_count > 0 {
                let raw = 4 * lookup(tbl, name).page_count - 1;
                if raw > usize::MAX {
                    Some(usize::MAX as int)
                } else {
                    Some(raw)
                }
            } else {
                None
            }
        },
        None => Some(15),
    }
}

/// The tick that follows an emission at `tick` with limit `limit`: wrap
/// to zero at the limit, else step forward.
pub open spec fn advance_tick(tick: int, limit: int) -> int {
    if tick >= limit {
        0
    } else {
        tick + 1
    }
}

/// The tick emitted on the `k`-th deadline after a start at zero, with
/// a fixed limit.
pub open spec fn tick_after(k: nat, limit: int) -> int
    decreases k,
{
    if k == 0 {
        0
    } else {
        advance_tick(tick_after((k - 1) as nat, limit), limit)
    }
}

/// With a fixed context, the emitted tick stays within `[0, limit]` and
/// cycles with period `limit + 1`: the `k`-th emission after a start at
/// zero is `k` modulo `limit + 1`, so each position is hit exactly once
/// per full cycle.
pub proof fn lemma_tick_cycle(k: nat, limit: int)
    requires
        limit >= 0,
    ensures
        0 <= tick_after(k, limit) <= limit,
        tick_after(k, limit) == (k as int) % (limit + 1),
    decreases k,
{
    if k > 0 {
        lemma_tick_cycle((k - 1) as nat, limit);
        assert(k as int == ((k as int - 1) + 1));
        assert((k as int - 1) % (limit + 1) == limit ==> (k as int) % (limit + 1) == 0)
            by (nonlinear_arith)
            requires
                limit >= 0,
                k >= 1,
        ;
        assert((k as int - 1) % (limit + 1) < limit ==> (k as int) % (limit + 1) == (k as int - 1)
            % (limit + 1) + 1) by (nonlinear_arith)
            requires
                limit >= 0,
                k >= 1,
        ;
    }
}

/// In pattern mode the cycle limit is `4 * page_count - 1`, so with
/// `lemma_tick_cycle` every emitted tick lies in
/// `[0, 4 * page_count - 1]` and the positions repeat exactly once per
/// `4 * page_count` firings.
pub proof fn lemma_pattern_cycle_limit(
    tbl: Seq<(Seq<char>, crate::models::PatternView)>,
    name: Seq<char>,
)
    requires
        has_key(tbl, name),
        lookup(tbl, name).page_count > 0,
        4 * lookup(tbl, name).page_count - 1 <= usize::MAX,
    ensures
        spec_cycle_limit(tbl, Some(name)) == Some(4 * lookup(tbl, name).page_count - 1),
{
}

/// Two deadline firings are spaced at least one interval apart: a
/// firing at `now1` rebases the deadline to `now1 + interval`, and the
/// next firing comes no earlier than that deadline, so emission
/// instants are monotone with spacing at least `interval`.
pub proof fn lemma_tick_spacing(interval: int, now1: int, next2: int, now2: int)
    requires
        next2 == now1 + interval,
        now2 >= next2,
    ensures
        now2 - now1 >= interval,
{
}

impl Ticker {
    /// A stopped ticker whose first deadline is one interval from
    /// `now`.
    pub fn new(now: u64, bpm: u32, interval: u64) -> (res: Self)
        requires
            now + interval <= u64::MAX,
        ensures
            res.playing == false,
            res.bpm == bpm,
            res.interval == interval,
            res.next_tick == now + interval,
            res.remaining == interval,
            res.tick is None,
    {
        Ticker { playing: false, bpm, interval, next_tick: now + interval, remaining: interval, tick: None }
    }

    /// `Play`: resume from the saved residual when paused or stopped; a
    /// no-op while already playing.
    pub fn on_play(&mut self, now: u64)
        requires
            now + old(self).remaining <= u64::MAX,
        ensures
            final(self).playing == true,
            !old(self).playing ==> final(self).next_tick == now + old(self).remaining,
            old(self).playing ==> final(self).next_tick == old(self).next_tick,
            final(self).bpm == old(self).bpm,
            final(self).interval == old(self).interval,
            final(self).remaining == old(self).remaining,
            final(self).tick == old(self).tick,
    {
        if !self.playing {
            self.playing = true;
            self.next_tick = now + self.remaining;
        }
    }

    /// `Pause`: freeze, saving the residual to the next deadline,
    /// clamped at zero; a no-op while not playing.
    pub fn on_pause(&mut self, now: u64)
        ensures
            final(self).playing == false || !old(self).playing,
            old(self).playing ==> final(self).playing == false && final(self).remaining == (
            if now <= old(self).next_tick {
                old(self).next_tick - now
            } else {
                0
            }),
            !old(self).playing ==> *final(self) == *old(self),
            final(self).bpm == old(self).bpm,
            final(self).interval == old(self).interval,
            final(self).next_tick == old(self).next_tick,
            final(self).tick == old(self).tick,
    {
        if self.playing {
            self.playing = false;
            self.remaining = if now <= self.next_tick {
                self.next_tick - now
            } else {
                0
            };
        }
    }

    /// `Stop`: halt, reset the residual to a full interval, forget the
    /// tick; the returned pair is published to listeners.
    pub fn on_stop(&mut self) -> (out: (Option<usize>, usize))
        ensures
            final(self).playing == false,
            final(self).remaining == old(self).interval,
            final(self).tick is None,
            final(self).bpm == old(self).bpm,
            final(self).interval == old(self).interval,
            final(self).next_tick == old(self).next_tick,
            out.0 is None,
            out.1 == 0,
    {
        self.playing = false;
        self.remaining = self.interval;
        self.tick = None;
        (None, 0)
    }

    /// `SetBPM`: adopt the new tempo and its interval, rebase the
    /// deadline one full interval from `now`, and reset the residual —
    /// a tempo change resynchronises.
    pub fn on_set_bpm(&mut self, now: u64, bpm: u32, interval: u64)
        requires
            now + interval <= u64::MAX,
        ensures
            final(self).bpm == bpm,
            final(self).interval == interval,
            final(self).next_tick == now + interval,
            final(self).remaining == interval,
            final(self).playing == old(self).playing,
            final(self).tick == old(self).tick,
    {
        self.bpm = bpm;
        self.interval = interval;
        self.next_tick = now + interval;
        self.remaining = interval;
    }

    /// A deadline firing at `now`: read the context, emit the clamped
    /// current tick with its limit and advance — or skip the cycle when
    /// the context names a missing or empty pattern.  Either way the
    /// deadline is rebased to `now + interval` (so it never moves
    /// backwards) and the residual resets.
    pub fn on_deadline(
        &mut self,
        now: u64,
        patterns: &NamedMap<Pattern>,
        context: &Option<String>,
    ) -> (emit: Option<(usize, usize)>)
        requires
            old(self).playing,
            now >= old(self).next_tick,
            now + old(self).interval <= u64::MAX,
        ensures
            final(self).playing == old(self).playing,
            final(self).bpm == old(self).bpm,
            final(self).interval == old(self).interval,
            final(self).next_tick == now + old(self).interval,
            final(self).next_tick >= old(self).next_tick,
            final(self).remaining == old(self).interval,
            ({
                let ctx: Option<Seq<char>> = match context {
                    Some(name) => Some(name@),
                    None => None,
                };
                match spec_cycle_limit(patterns@, ctx) {
                    None => emit is None && final(self).tick == old(self).tick,
                    Some(limit) => {
                        let start: int = match old(self).tick {
                            Some(t) => t as int,
                            None => 0,
                        };
                        let clamped: int = if start > limit {
                            limit
                        } else {
                            start
                        };
                        &&& emit matches Some((t, m)) && t == clamped && m == limit
                        &&& final(self).tick == Some(advance_tick(clamped, limit) as usize)
                    },
                }
            }),
    {
        let tick0: usize = match self.tick {
            Some(t) => t,
            None => 0,
        };
        let limit_opt: Option<usize> = match context {
            Some(name) => {
                match patterns.get(name) {
                    None => None,
                    Some(pat) => {
                        if pat.page_count == 0 {
                            None
                        } else if pat.page_count > usize::MAX / 4 {
                            Some(usize::MAX)
                        } else {
                            Some(4 * pat.page_count - 1)
                        }
                    },
                }
            },
            None => Some(15),
        };
        self.next_tick = now + self.interval;
        self.remaining = self.interval;
        match limit_opt {
            None => None,
            Some(limit) => {
                let clamped = if tick0 > limit {
                    limit
                } else {
                    tick0
                };
                self.tick = Some(
                    if clamped >= limit {
                        0
                    } else {
                        clamped + 1
                    },
                );
                Some((clamped, limit))
            },
        }
    }
}

} // verus!
