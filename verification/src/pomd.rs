//! The cycle engine: owns the configuration, the current phase and its target
//! duration, the iteration counter, and a pausable clock with a phase-start
//! marker. It computes remaining time, decides phase transitions, and triggers
//! notifications.
//!
//! The engine's observable state is plain data; only the clock itself is
//! opaque. Whenever the clock is paused the engine carries the frozen elapsed
//! time of the current phase in `elapsed_at_pause`, so every query made while
//! paused is a pure function of the engine state.

use vstd::prelude::*;
use vstd::arithmetic::div_mod::{lemma_mod_self_0, lemma_small_mod};
use pausable_clock::PausableClock;
use crate::clock::{clock_new, clock_now_millis, clock_pause, clock_resume};
use crate::config::PomdConfig;
use crate::notifier::{completion_text_of, format_completion, show_notification};

verus! {

/// The target duration of a phase, by the cycle rules: a work phase lasts
/// `work_duration`; the break after the last iteration of a cycle is the long
/// break, every other break is short.
pub open spec fn phase_duration_spec(config: PomdConfig, on_break: bool, iteration: u8) -> u64 {
    if on_break {
        if iteration == config.num_iterations - 1 {
            config.long_break_duration
        } else {
            config.short_break_duration
        }
    } else {
        config.work_duration
    }
}

/// One step of the phase state machine:
/// `Work(i) -> Break(i)` and `Break(i) -> Work((i + 1) mod num_iterations)`.
pub open spec fn next_phase(config: PomdConfig, on_break: bool, iteration: u8) -> (bool, u8) {
    if on_break {
        (false, (((iteration + 1) % (config.num_iterations as int))) as u8)
    } else {
        (true, iteration)
    }
}

/// `n` steps of the phase state machine.
pub open spec fn next_phase_n(config: PomdConfig, on_break: bool, iteration: u8, n: nat) -> (bool, u8)
    decreases n,
{
    if n == 0 {
        (on_break, iteration)
    } else {
        let s = next_phase(config, on_break, iteration);
        next_phase_n(config, s.0, s.1, (n - 1) as nat)
    }
}

/// Time left of a phase of length `duration` after `elapsed` milliseconds,
/// floored at zero.
pub open spec fn remaining_of(duration: u64, elapsed: u64) -> u64 {
    if elapsed >= duration {
        0
    } else {
        (duration - elapsed) as u64
    }
}

/// The elapsed time a clock reading `now` gives for a phase that began at
/// `start`, floored at zero against clock skew.
pub open spec fn elapsed_since(start: u64, now: u64) -> u64 {
    if now >= start {
        (now - start) as u64
    } else {
        0
    }
}

/// Represents the current state of the timer cycle.
pub struct Pomd {
    /// The configuration the engine was built with.
    pub config: PomdConfig,
    /// Target duration of the current phase, in milliseconds.
    pub duration: u64,
    /// Index of the current (or most recently completed) work phase.
    pub iteration: u8,
    /// True iff the current phase is a break.
    pub on_break: bool,
    /// True iff the clock is paused (the timer is not running).
    pub paused: bool,
    /// While paused: the frozen elapsed time of the current phase, in
    /// milliseconds. Meaningless while running.
    pub elapsed_at_pause: u64,
    /// The pausable clock phase time is measured against.
    pub clock: PausableClock,
    /// Clock-relative instant (in milliseconds) when the current phase began.
    pub start_millis: u64,
}

impl Pomd {
    /// Internal consistency: a valid configuration, the iteration counter in
    /// range, and the phase duration consistent with the current phase.
    pub open spec fn wf(self) -> bool {
        &&& self.config.wf()
        &&& self.iteration < self.config.num_iterations
        &&& self.duration == phase_duration_spec(self.config, self.on_break, self.iteration)
    }

    /// The observable state a freshly built engine has: work phase zero,
    /// paused, with the full work duration ahead.
    pub open spec fn is_fresh_for(self, config: PomdConfig) -> bool {
        &&& self.config == config
        &&& self.duration == config.work_duration
        &&& self.iteration == 0
        &&& !self.on_break
        &&& self.paused
        &&& self.elapsed_at_pause == 0
    }

    /// How a phase transition changes the state: one step of the state
    /// machine, the new phase's duration installed, the clock paused with the
    /// new phase at zero elapsed time.
    pub open spec fn advanced_from(self, pre: Pomd) -> bool {
        &&& self.config == pre.config
        &&& (self.on_break, self.iteration) == next_phase(pre.config, pre.on_break, pre.iteration)
        &&& self.duration == phase_duration_spec(self.config, self.on_break, self.iteration)
        &&& self.paused
        &&& self.elapsed_at_pause == 0
        &&& self.clock == pre.clock
    }

    /// The state after `start`: the same in every field but `paused`.
    pub open spec fn started_state(self) -> Pomd {
        Pomd {
            config: self.config,
            duration: self.duration,
            iteration: self.iteration,
            on_break: self.on_break,
            paused: false,
            elapsed_at_pause: self.elapsed_at_pause,
            clock: self.clock,
            start_millis: self.start_millis,
        }
    }

    /// The state frozen at the given phase elapsed time: the same in every
    /// field but `paused` and the snapshot.
    pub open spec fn paused_state_at(self, elapsed: u64) -> Pomd {
        Pomd {
            config: self.config,
            duration: self.duration,
            iteration: self.iteration,
            on_break: self.on_break,
            paused: true,
            elapsed_at_pause: elapsed,
            clock: self.clock,
            start_millis: self.start_millis,
        }
    }

    /// How `pause` changes the state: a no-op when already paused, else the
    /// same state frozen at some snapshot of the phase's elapsed time.
    pub open spec fn pause_transition(pre: Pomd, post: Pomd) -> bool {
        if pre.paused {
            post == pre
        } else {
            &&& post.config == pre.config
            &&& post.duration == pre.duration
            &&& post.iteration == pre.iteration
            &&& post.on_break == pre.on_break
            &&& post.paused
            &&& post.clock == pre.clock
            &&& post.start_millis == pre.start_millis
        }
    }

    /// How `update` (the periodic tick) changes the state: a transition
    /// exactly when the phase's elapsed time has reached its duration. While
    /// running the elapsed time comes from the clock, so only the dichotomy
    /// is known; while paused it is the frozen snapshot.
    pub open spec fn tick_transition(pre: Pomd, post: Pomd) -> bool {
        if pre.paused {
            if pre.elapsed_at_pause >= pre.duration {
                post.advanced_from(pre)
            } else {
                post == pre
            }
        } else {
            post.advanced_from(pre) || post == pre
        }
    }

    /// Creates a new engine for the given configuration: work phase zero,
    /// clock created paused, nothing elapsed.
    pub fn new(config: PomdConfig) -> (r: Self)
        requires
            config.wf(),
        ensures
            r.wf(),
            r.is_fresh_for(config),
    {
        let clock = clock_new(true);
        let start_millis: u64 = clock_now_millis(&clock);
        Pomd {
            config,
            duration: config.work_duration,
            iteration: 0,
            on_break: false,
            paused: true,
            elapsed_at_pause: 0,
            clock,
            start_millis,
        }
    }

    /// The phase elapsed time a given clock reading stands for: the reading
    /// relative to the phase start, floored at zero against clock skew.
    pub fn elapsed_from(&self, now: u64) -> (r: u64)
        ensures
            r == elapsed_since(self.start_millis, now),
    {
        if now >= self.start_millis {
            now - self.start_millis
        } else {
            0
        }
    }

    /// The elapsed time of the current phase, in milliseconds: the frozen
    /// snapshot while paused, a live clock reading while running.
    pub fn effective_elapsed(&self) -> (r: u64)
        ensures
            self.paused ==> r == self.elapsed_at_pause,
    {
        if self.paused {
            self.elapsed_at_pause
        } else {
            let now: u64 = clock_now_millis(&self.clock);
            self.elapsed_from(now)
        }
    }

    /// Checks whether sufficient time has elapsed and, if so, enters the next
    /// phase of the cycle. This is the periodic tick operation.
    pub fn update(&mut self)
        requires
            old(self).wf(),
        ensures
            final(self).wf(),
            Self::tick_transition(*old(self), *final(self)),
    {
        let elapsed: u64 = self.effective_elapsed();
        self.update_with_elapsed(elapsed);
    }

    /// The transition decision `update` makes, for a given elapsed time of
    /// the current phase: advances the cycle exactly when the phase is over
    /// (first notifying, if notifications are enabled), and does nothing
    /// otherwise.
    pub fn update_with_elapsed(&mut self, elapsed: u64)
        requires
            old(self).wf(),
        ensures
            final(self).wf(),
            elapsed >= old(self).duration ==> final(self).advanced_from(*old(self)),
            elapsed < old(self).duration ==> *final(self) == *old(self),
    {
        if elapsed >= self.duration {
            if self.config.notify {
                self.notify();
            }
            self.setup_next_iteration();
        }
    }

    /// Resets state for the next phase of the cycle: pauses the clock (every
    /// transition requires an explicit restart), restarts phase time, flips
    /// work/break, and installs the new phase's duration, advancing the
    /// iteration counter on re-entering work.
    pub fn setup_next_iteration(&mut self)
        requires
            old(self).wf(),
        ensures
            final(self).wf(),
            final(self).advanced_from(*old(self)),
    {
        // Stop clock until user restarts it
        clock_pause(&self.clock);
        self.paused = true;
        let now: u64 = clock_now_millis(&self.clock);
        self.start_millis = now;
        self.elapsed_at_pause = 0;
        self.on_break = !self.on_break;
        if self.on_break {
            // Long break on last iteration
            self.duration = if self.iteration == self.config.num_iterations - 1 {
                self.config.long_break_duration
            } else {
                self.config.short_break_duration
            };
        } else {
            self.iteration = (self.iteration + 1) % self.config.num_iterations;
            self.duration = self.config.work_duration;
        }
    }

    /// The summary text of the notification for the phase just completed: a
    /// break completion reads "Break Complete"; a work completion names the
    /// iteration just finished out of the configured total.
    pub fn notification_summary(&self) -> (r: String)
        requires
            self.wf(),
        ensures
            self.on_break ==> r@ == "Break Complete"@,
            !self.on_break ==> r@ == completion_text_of(
                (self.iteration + 1) as u8,
                self.config.num_iterations,
            ),
    {
        if self.on_break {
            "Break Complete".to_string()
        } else {
            format_completion(self.iteration + 1, self.config.num_iterations)
        }
    }

    /// Displays a system notification describing the phase just completed,
    /// with the summary `notification_summary` fixes. Dispatch is best-effort
    /// and cannot change the engine state.
    pub fn notify(&self)
        requires
            self.wf(),
    {
        let summary = self.notification_summary();
        show_notification(summary.as_str(), "Click to dismiss");
    }

    /// Time left in the current phase after `elapsed` milliseconds of it,
    /// floored at zero.
    pub fn remaining_from(&self, elapsed: u64) -> (r: u64)
        ensures
            r == remaining_of(self.duration, elapsed),
    {
        if elapsed >= self.duration {
            0
        } else {
            self.duration - elapsed
        }
    }

    /// Time left in the current phase, in milliseconds, floored at zero:
    /// never negative, never more than the phase duration. While paused this
    /// is a pure function of the engine state, so it cannot drift as real
    /// time passes.
    pub fn remaining(&self) -> (r: u64)
        ensures
            self.paused ==> r == remaining_of(self.duration, self.elapsed_at_pause),
            r <= self.duration,
    {
        let elapsed: u64 = self.effective_elapsed();
        self.remaining_from(elapsed)
    }

    /// Index of the current work phase.
    pub fn current_iteration(&self) -> (r: u8)
        ensures
            r == self.iteration,
    {
        self.iteration
    }

    /// Whether the clock is actively counting.
    pub fn is_running(&self) -> (r: bool)
        ensures
            r == !self.paused,
    {
        !self.paused
    }

    /// Whether the current phase is a break.
    pub fn is_on_break(&self) -> (r: bool)
        ensures
            r == self.on_break,
    {
        self.on_break
    }

    /// Resumes the clock. Idempotent.
    pub fn start(&mut self)
        ensures
            *final(self) == old(self).started_state(),
    {
        clock_resume(&self.clock);
        self.paused = false;
    }

    /// The state change `pause` makes once the frozen clock reading is
    /// drawn: pauses the clock (idempotent, so `pause`'s own earlier pause is
    /// harmless) and freezes the engine at the phase elapsed time that
    /// reading gives.
    pub fn pause_at(&mut self, now: u64)
        ensures
            *final(self) == old(self).paused_state_at(
                elapsed_since(old(self).start_millis, now),
            ),
    {
        clock_pause(&self.clock);
        let elapsed: u64 = self.elapsed_from(now);
        self.elapsed_at_pause = elapsed;
        self.paused = true;
    }

    /// Pauses the clock, freezing the phase's elapsed time at its current
    /// value. Idempotent: a second call changes nothing.
    pub fn pause(&mut self)
        ensures
            Self::pause_transition(*old(self), *final(self)),
    {
        if !self.paused {
            clock_pause(&self.clock);
            let now: u64 = clock_now_millis(&self.clock);
            self.pause_at(now);
        }
    }

    /// Resets the engine to the exact observable state of `new` with the same
    /// configuration, discarding iteration progress and phase.
    pub fn stop(&mut self)
        requires
            old(self).wf(),
        ensures
            final(self).wf(),
            final(self).is_fresh_for(old(self).config),
    {
        *self = Pomd::new(self.config);
    }

    /// Forces an immediate phase advance, bypassing the elapsed-time check
    /// and the notification.
    pub fn skip(&mut self)
        requires
            old(self).wf(),
        ensures
            final(self).wf(),
            final(self).advanced_from(*old(self)),
    {
        self.setup_next_iteration();
    }
}

/// Law: pausing is idempotent. After one `pause` the state is paused, and a
/// second `pause` of a paused state changes nothing, so two pauses in a row
/// have the same effect as one.
pub proof fn lemma_pause_idempotent(a: Pomd, b: Pomd, c: Pomd)
    requires
        Pomd::pause_transition(a, b),
        Pomd::pause_transition(b, c),
    ensures
        c == b,
{
}

/// Law: starting is idempotent. Starting an already started state yields the
/// same state, so two starts in a row have the same effect as one.
pub proof fn lemma_start_idempotent(s: Pomd)
    ensures
        s.started_state().started_state() == s.started_state(),
{
}

/// `next_phase_n` unfolds at the back as well as at the front: one more step
/// is `next_phase` applied to the state the first `n` steps reach.
pub proof fn lemma_next_phase_n_step(config: PomdConfig, on_break: bool, iteration: u8, n: nat)
    ensures
        next_phase_n(config, on_break, iteration, n + 1) == next_phase(
            config,
            next_phase_n(config, on_break, iteration, n).0,
            next_phase_n(config, on_break, iteration, n).1,
        ),
    decreases n,
{
    reveal_with_fuel(next_phase_n, 2);
    if n > 0 {
        let s = next_phase(config, on_break, iteration);
        lemma_next_phase_n_step(config, s.0, s.1, (n - 1) as nat);
    }
}

/// Law (cycle position): from `Work(0)`, `2·k` steps of the state machine
/// reach `Work(k)`, and one more reaches `Break(k)`, for every `k` below the
/// iteration count.
pub proof fn lemma_cycle_position(config: PomdConfig, k: u8)
    requires
        config.wf(),
        k < config.num_iterations,
    ensures
        next_phase_n(config, false, 0, 2 * (k as nat)) == (false, k),
        next_phase_n(config, false, 0, 2 * (k as nat) + 1) == (true, k),
    decreases k,
{
    reveal_with_fuel(next_phase_n, 2);
    if k == 0 {
        assert(next_phase_n(config, false, 0, 0) == (false, 0u8));
        assert(next_phase_n(config, false, 0, 1) == (true, 0u8));
    } else {
        lemma_cycle_position(config, (k - 1) as u8);
        lemma_next_phase_n_step(config, false, 0, 2 * ((k - 1) as nat) + 1);
        assert(2 * ((k - 1) as nat) + 1 + 1 == 2 * (k as nat));
        lemma_small_mod(k as nat, config.num_iterations as nat);
        lemma_next_phase_n_step(config, false, 0, 2 * (k as nat));
    }
}

/// Law (full cycle): from `Work(0)`, `2·num_iterations` skips return the
/// state machine to `Work(0)`; the break just before that return is the one
/// after the last iteration, whose duration is the long break, while every
/// break after an earlier iteration lasts the short break.
pub proof fn lemma_full_cycle(config: PomdConfig)
    requires
        config.wf(),
    ensures
        next_phase_n(config, false, 0, 2 * (config.num_iterations as nat)) == (false, 0u8),
        next_phase_n(config, false, 0, (2 * (config.num_iterations as nat) - 1) as nat) == (
            true,
            (config.num_iterations - 1) as u8,
        ),
        phase_duration_spec(config, true, (config.num_iterations - 1) as u8)
            == config.long_break_duration,
        forall|k: u8|
            k < config.num_iterations - 1 ==> #[trigger] phase_duration_spec(config, true, k)
                == config.short_break_duration,
{
    let n = config.num_iterations;
    let last = (n - 1) as u8;
    lemma_cycle_position(config, last);
    lemma_next_phase_n_step(config, false, 0, 2 * (last as nat) + 1);
    assert(2 * (last as nat) + 1 + 1 == 2 * (n as nat));
    lemma_mod_self_0(n as int);
}

/// Law: the notify flag gates only notification dispatch. Two configurations
/// that differ at most in `notify` drive identical phase transitions and
/// identical phase durations.
pub proof fn lemma_notify_flag_independent(
    a: PomdConfig,
    b: PomdConfig,
    on_break: bool,
    iteration: u8,
)
    requires
        a.work_duration == b.work_duration,
        a.short_break_duration == b.short_break_duration,
        a.long_break_duration == b.long_break_duration,
        a.num_iterations == b.num_iterations,
    ensures
        next_phase(a, on_break, iteration) == next_phase(b, on_break, iteration),
        phase_duration_spec(a, on_break, iteration) == phase_duration_spec(b, on_break, iteration),
{
}

/// Law: within a phase, remaining time is non-increasing as elapsed time
/// grows, and equal elapsed times give equal remaining time. The clock's
/// readings within a running phase are monotone, so two successive live
/// queries with no command in between cannot report more time than before.
pub proof fn lemma_remaining_monotone(duration: u64, e1: u64, e2: u64)
    requires
        e1 <= e2,
    ensures
        remaining_of(duration, e2) <= remaining_of(duration, e1),
{
}

/// Law: a fresh engine reports the full work duration remaining.
pub proof fn lemma_fresh_remaining(s: Pomd, config: PomdConfig)
    requires
        config.wf(),
        s.is_fresh_for(config),
    ensures
        remaining_of(s.duration, s.elapsed_at_pause) == config.work_duration,
{
}

} // verus!
