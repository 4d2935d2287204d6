//! Join / re-join decisions: jittered delays, backoff after failed attempts,
//! and the phase of the bring-up cycle. The driver performs each returned
//! action and reports the outcome.

use crate::lorawan::JoinProgress;
use crate::utils::{lcg, rand, Rng};
use vstd::prelude::*;

verus! {

/// Below this ceiling (ms) a failed attempt re-draws the ceiling.
pub const BACKOFF_FLOOR_MS: u64 = 1000;

/// Largest ceiling (ms) that a re-draw may give.
pub const BACKOFF_REDRAW_MAX_MS: u64 = 5000;

/// Number of ceilings that a re-draw can give.
pub const BACKOFF_REDRAW_SPAN: u64 = BACKOFF_REDRAW_MAX_MS - BACKOFF_FLOOR_MS + 1;

/// Pause after a successful join before the operating screen is shown.
pub const JOIN_SETTLE_MS: u64 = 1000;

/// A jittered delay below `ceiling` drawn from a generator at `seed`; zero for a zero ceiling.
pub open spec fn jitter(seed: u64, ceiling: u64) -> u64 {
    if ceiling == 0 {
        0
    } else {
        lcg(seed) % ceiling
    }
}

/// Draws a delay below `ceiling` (zero when the ceiling is zero).
pub fn draw_delay(rng: &mut Rng, ceiling: u64) -> (r: u64)
    ensures
        r == jitter(old(rng).seed, ceiling),
        ceiling > 0 ==> r < ceiling,
        ceiling > 0 ==> final(rng).seed == r,
        ceiling == 0 ==> final(rng).seed == old(rng).seed,
{
    if ceiling == 0 {
        0
    } else {
        rand(rng, ceiling)
    }
}

/// The ceiling after a failed attempt: half the old one, or, once that is
/// below the floor, a value drawn from `[floor, redraw max]` with the
/// generator at `seed`.
pub open spec fn next_ceiling(ceiling: u64, seed: u64) -> u64 {
    if ceiling / 2 >= BACKOFF_FLOOR_MS {
        ceiling / 2
    } else {
        (BACKOFF_FLOOR_MS + lcg(seed) % BACKOFF_REDRAW_SPAN) as u64
    }
}

/// The generator's seed after the ceiling of a failed attempt was chosen.
pub open spec fn seed_after_ceiling(ceiling: u64, seed: u64) -> u64 {
    if ceiling / 2 >= BACKOFF_FLOOR_MS {
        seed
    } else {
        (lcg(seed) % BACKOFF_REDRAW_SPAN) as u64
    }
}

/// Backoff between join attempts.
pub struct JoinBackoff {
    /// Ceiling from the configuration, in ms.
    pub configured: u64,
    /// Current ceiling, in ms.
    pub ceiling: u64,
    /// The delay drawn at start, reused before each re-join.
    pub initial_delay: u64,
    /// Failed attempts since the last successful join.
    pub attempts: u32,
}

impl JoinBackoff {
    /// Starts from the configured ceiling (in seconds) and draws the initial
    /// jittered delay, so that a fleet powered up together does not join in lockstep.
    pub fn new(join_delay_max_sec: u8, rng: &mut Rng) -> (r: JoinBackoff)
        ensures
            r.configured == join_delay_max_sec as u64 * 1000,
            r.ceiling == r.configured,
            r.initial_delay == jitter(old(rng).seed, r.configured),
            r.configured > 0 ==> r.initial_delay < r.configured,
            r.attempts == 0,
            r.configured > 0 ==> final(rng).seed == r.initial_delay,
    {
        let configured: u64 = join_delay_max_sec as u64 * 1000;
        let initial_delay = draw_delay(rng, configured);
        JoinBackoff { configured, ceiling: configured, initial_delay, attempts: 0 }
    }

    /// A join attempt failed: lowers the ceiling and returns the delay to wait
    /// before the next attempt, which is below the new ceiling.
    pub fn on_failure(&mut self, rng: &mut Rng) -> (r: u64)
        ensures
            final(self).ceiling == next_ceiling(old(self).ceiling, old(rng).seed),
            BACKOFF_FLOOR_MS <= final(self).ceiling,
            r == jitter(seed_after_ceiling(old(self).ceiling, old(rng).seed), final(self).ceiling),
            r < final(self).ceiling,
            final(rng).seed == r,
            final(self).configured == old(self).configured,
            final(self).initial_delay == old(self).initial_delay,
            final(self).attempts == if old(self).attempts < u32::MAX {
                (old(self).attempts + 1) as u32
            } else {
                u32::MAX
            },
    {
        let half = self.ceiling / 2;
        if half < BACKOFF_FLOOR_MS {
            let extra = rand(rng, BACKOFF_REDRAW_SPAN);
            self.ceiling = BACKOFF_FLOOR_MS + extra;
        } else {
            self.ceiling = half;
        }
        if self.attempts < u32::MAX {
            self.attempts = self.attempts + 1;
        }
        rand(rng, self.ceiling)
    }

    /// A join succeeded: the ceiling returns to the configured one.
    pub fn on_success(&mut self)
        ensures
            final(self).ceiling == old(self).configured,
            final(self).configured == old(self).configured,
            final(self).initial_delay == old(self).initial_delay,
            final(self).attempts == 0,
    {
        self.ceiling = self.configured;
        self.attempts = 0;
    }
}

/// Repeated failures halve the ceiling while it stays at or above the floor;
/// below it the next ceiling lies in `[floor, redraw max]`; the delay drawn
/// after a failure is always below the new ceiling.
pub proof fn lemma_backoff(ceiling: u64, seed: u64)
    ensures
        ceiling / 2 >= BACKOFF_FLOOR_MS ==> next_ceiling(ceiling, seed) == ceiling / 2,
        ceiling / 2 < BACKOFF_FLOOR_MS ==> BACKOFF_FLOOR_MS <= next_ceiling(ceiling, seed)
            <= BACKOFF_REDRAW_MAX_MS,
        jitter(seed_after_ceiling(ceiling, seed), next_ceiling(ceiling, seed)) < next_ceiling(
            ceiling,
            seed,
        ),
{
}

/// Phase of the bring-up cycle.
#[derive(Clone, Copy, PartialEq, Eq, Structural, Debug)]
pub enum JoinPhase {
    Idle,
    Joining,
    Joined,
}

/// What the driver is to do next.
#[derive(Clone, Copy, PartialEq, Eq, Structural, Debug)]
pub enum JoinAction {
    /// Wait this many ms, then make a join attempt.
    WaitThenAttempt(u64),
    /// A downlink already reported the join: go straight to the joined handling.
    SkipToJoined,
    /// Reset the radio module and run the pin watch of one join attempt.
    ResetAndJoin,
    /// Wait this many ms, show the operating screen, run the registration
    /// check and wait for a re-join request.
    SettleThenOperate(u64),
}

/// The join / re-join state machine.
pub struct JoinMachine {
    pub phase: JoinPhase,
    pub backoff: JoinBackoff,
    pub progress: JoinProgress,
}

impl JoinMachine {
    pub fn new(backoff: JoinBackoff) -> (r: JoinMachine)
        ensures
            r.phase == JoinPhase::Idle,
            r.backoff == backoff,
            r.progress == JoinProgress::spec_new(),
    {
        JoinMachine { phase: JoinPhase::Idle, backoff, progress: JoinProgress::new() }
    }

    /// Leaves `Idle`: wait the initial jittered delay, then attempt.
    pub fn start(&mut self) -> (r: JoinAction)
        ensures
            r == JoinAction::WaitThenAttempt(old(self).backoff.initial_delay),
            final(self).phase == JoinPhase::Joining,
            final(self).backoff == old(self).backoff,
            final(self).progress == old(self).progress,
    {
        self.phase = JoinPhase::Joining;
        JoinAction::WaitThenAttempt(self.backoff.initial_delay)
    }

    /// How to make the next attempt: skip it when a downlink already marked
    /// the device as joined.
    pub fn attempt(&self) -> (r: JoinAction)
        ensures
            r == if self.progress.joined {
                JoinAction::SkipToJoined
            } else {
                JoinAction::ResetAndJoin
            },
    {
        if self.progress.joined {
            JoinAction::SkipToJoined
        } else {
            JoinAction::ResetAndJoin
        }
    }

    /// The outcome of an attempt (or of skipping it).
    pub fn on_attempt(&mut self, joined: bool, rng: &mut Rng) -> (r: JoinAction)
        ensures
            joined ==> r == JoinAction::SettleThenOperate(JOIN_SETTLE_MS) && final(self).phase
                == JoinPhase::Joined && final(self).backoff.ceiling == old(
                self,
            ).backoff.configured && final(self).backoff.attempts == 0 && final(rng).seed == old(
                rng,
            ).seed,
            !joined ==> final(self).phase == JoinPhase::Joining && final(self).backoff.ceiling
                == next_ceiling(old(self).backoff.ceiling, old(rng).seed) && r
                == JoinAction::WaitThenAttempt(
                jitter(
                    seed_after_ceiling(old(self).backoff.ceiling, old(rng).seed),
                    final(self).backoff.ceiling,
                ),
            ),
            final(self).progress == old(self).progress,
            final(self).backoff.configured == old(self).backoff.configured,
            final(self).backoff.initial_delay == old(self).backoff.initial_delay,
    {
        if joined {
            self.phase = JoinPhase::Joined;
            self.backoff.on_success();
            JoinAction::SettleThenOperate(JOIN_SETTLE_MS)
        } else {
            self.phase = JoinPhase::Joining;
            let delay = self.backoff.on_failure(rng);
            JoinAction::WaitThenAttempt(delay)
        }
    }

    /// A re-join was requested: forget the join and start over after the
    /// initial delay.
    pub fn on_rejoin_request(&mut self) -> (r: JoinAction)
        ensures
            r == JoinAction::WaitThenAttempt(old(self).backoff.initial_delay),
            final(self).phase == JoinPhase::Joining,
            final(self).progress == JoinProgress::spec_new(),
            final(self).backoff == old(self).backoff,
    {
        self.phase = JoinPhase::Joining;
        self.progress = JoinProgress::new();
        JoinAction::WaitThenAttempt(self.backoff.initial_delay)
    }

    /// A downlink reported that the device has joined.
    pub fn mark_joined(&mut self)
        ensures
            final(self).progress.joined,
            final(self).progress.busy == old(self).progress.busy,
            final(self).progress.stat == old(self).progress.stat,
            final(self).phase == old(self).phase,
            final(self).backoff == old(self).backoff,
    {
        self.progress.joined = true;
    }
}

} // verus!
