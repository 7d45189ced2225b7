use pomd::{Pomd, PomdConfig};

fn small_config(notify: bool) -> PomdConfig {
    PomdConfig {
        work_duration: 5000,
        short_break_duration: 2000,
        long_break_duration: 3000,
        num_iterations: 2,
        notify,
    }
}

/// Busy-waits for the given number of milliseconds of real time.
fn spin(ms: u64) {
    let begin = std::time::Instant::now();
    while begin.elapsed() < std::time::Duration::from_millis(ms) {}
}

#[test]
fn fresh_state_reports_initial_values() {
    let p = Pomd::new(small_config(false));
    assert!(!p.is_on_break());
    assert_eq!(p.current_iteration(), 0);
    assert!(!p.is_running());
    assert_eq!(p.remaining(), 5000);
}

#[test]
fn default_config_values() {
    let cfg = PomdConfig::default();
    assert_eq!(cfg.work_duration, 900_000);
    assert_eq!(cfg.short_break_duration, 300_000);
    assert_eq!(cfg.long_break_duration, 1_500_000);
    assert_eq!(cfg.num_iterations, 4);
    assert!(cfg.notify);
    let p = Pomd::new(cfg);
    assert_eq!(p.remaining(), 900_000);
}

#[test]
fn pause_twice_same_as_once() {
    let mut p = Pomd::new(small_config(false));
    // A fresh engine is paused: pausing it (twice) must change nothing.
    p.pause();
    assert_eq!(p.remaining(), 5000);
    assert!(!p.is_running());
    p.pause();
    assert_eq!(p.remaining(), 5000);
    assert!(!p.is_running());

    // Pause mid-phase, then pause again: the frozen snapshot must not move.
    p.start();
    spin(60);
    p.pause();
    let r1 = p.remaining();
    let it1 = p.current_iteration();
    let ob1 = p.is_on_break();
    p.pause();
    assert_eq!(p.remaining(), r1);
    assert_eq!(p.current_iteration(), it1);
    assert_eq!(p.is_on_break(), ob1);
    assert!(!p.is_running());
}

#[test]
fn start_twice_same_as_once() {
    let mut p = Pomd::new(small_config(false));
    p.start();
    assert!(p.is_running());
    let it1 = p.current_iteration();
    let ob1 = p.is_on_break();
    p.start();
    assert!(p.is_running());
    assert_eq!(p.current_iteration(), it1);
    assert_eq!(p.is_on_break(), ob1);
}

#[test]
fn remaining_never_exceeds_phase_duration() {
    let mut p = Pomd::new(small_config(false));
    assert!(p.remaining() <= 5000);
    p.start();
    assert!(p.remaining() <= 5000);
    p.update_with_elapsed(u64::MAX);
    // Transitioned to the short break; the new phase starts full.
    assert!(p.is_on_break());
    assert_eq!(p.remaining(), 2000);
    p.skip();
    assert!(p.remaining() <= 5000);
    p.pause();
    assert!(p.remaining() <= 5000);
}

#[test]
fn pause_excludes_paused_time() {
    let mut p = Pomd::new(small_config(false));
    p.start();
    spin(150);
    let live = p.remaining();
    assert!(live <= 4880, "remaining should reflect elapsed time, got {live}");
    p.pause();
    let r1 = p.remaining();
    spin(150);
    let r2 = p.remaining();
    assert_eq!(r1, r2, "remaining must not move while paused");
    assert!(r1 >= 4000, "only a fraction of the phase should have elapsed");
}

#[test]
fn full_cycle_of_skips_returns_to_start() {
    let cfg = PomdConfig {
        work_duration: 5000,
        short_break_duration: 2000,
        long_break_duration: 3000,
        num_iterations: 3,
        notify: false,
    };
    let mut p = Pomd::new(cfg);
    let expected: [(bool, u8, u64); 6] = [
        (true, 0, 2000),
        (false, 1, 5000),
        (true, 1, 2000),
        (false, 2, 5000),
        (true, 2, 3000),
        (false, 0, 5000),
    ];
    for (on_break, iteration, duration) in expected {
        p.skip();
        assert_eq!(p.is_on_break(), on_break);
        assert_eq!(p.current_iteration(), iteration);
        assert_eq!(p.remaining(), duration);
        assert!(!p.is_running(), "every transition leaves the clock paused");
    }
}

#[test]
fn single_iteration_breaks_are_long() {
    let cfg = PomdConfig {
        work_duration: 5000,
        short_break_duration: 2000,
        long_break_duration: 3000,
        num_iterations: 1,
        notify: false,
    };
    let mut p = Pomd::new(cfg);
    p.skip();
    assert!(p.is_on_break());
    assert_eq!(p.remaining(), 3000, "with one iteration every break is long");
    p.skip();
    assert!(!p.is_on_break());
    assert_eq!(p.current_iteration(), 0);
}

#[test]
fn stop_resets_to_fresh_state() {
    let mut p = Pomd::new(small_config(false));
    p.start();
    p.skip();
    p.skip();
    p.start();
    p.stop();
    assert!(!p.is_on_break());
    assert_eq!(p.current_iteration(), 0);
    assert!(!p.is_running());
    assert_eq!(p.remaining(), 5000);
}

#[test]
fn scenario_two_iterations() {
    let mut p = Pomd::new(small_config(false));
    p.start();
    p.update_with_elapsed(4999);
    assert!(!p.is_on_break(), "phase not yet over");
    assert!(p.is_running());
    p.update_with_elapsed(5000);
    assert!(p.is_on_break());
    assert_eq!(p.current_iteration(), 0);
    assert_eq!(p.remaining(), 2000);
    assert!(!p.is_running(), "transition pauses the clock");
    p.start();
    p.update_with_elapsed(2000);
    assert!(!p.is_on_break());
    assert_eq!(p.current_iteration(), 1);
    assert_eq!(p.remaining(), 5000);
    p.skip();
    assert!(p.is_on_break());
    assert_eq!(p.remaining(), 3000, "iteration 1 of 2 ends in the long break");
    p.skip();
    assert!(!p.is_on_break());
    assert_eq!(p.current_iteration(), 0);
}

#[test]
fn notify_flag_does_not_affect_state() {
    let mut with_notify = Pomd::new(small_config(true));
    let mut without_notify = Pomd::new(small_config(false));
    for p in [&mut with_notify, &mut without_notify] {
        p.start();
        p.update_with_elapsed(5000);
    }
    assert_eq!(with_notify.is_on_break(), without_notify.is_on_break());
    assert_eq!(with_notify.current_iteration(), without_notify.current_iteration());
    assert_eq!(with_notify.remaining(), without_notify.remaining());
    assert_eq!(with_notify.is_running(), without_notify.is_running());
}

#[test]
fn update_before_phase_end_is_noop() {
    let mut p = Pomd::new(small_config(false));
    p.start();
    p.update();
    assert!(!p.is_on_break());
    assert_eq!(p.current_iteration(), 0);
    assert!(p.is_running(), "an update without a transition must not pause");
}

#[test]
fn update_transitions_on_real_elapsed_time() {
    let cfg = PomdConfig {
        work_duration: 100,
        short_break_duration: 2000,
        long_break_duration: 3000,
        num_iterations: 2,
        notify: false,
    };
    let mut p = Pomd::new(cfg);
    p.start();
    spin(250);
    p.update();
    assert!(p.is_on_break(), "the work phase was over; update must advance");
    assert_eq!(p.remaining(), 2000);
    assert!(!p.is_running());
}

#[test]
fn update_while_paused_uses_frozen_time() {
    let mut p = Pomd::new(small_config(false));
    // Paused at zero elapsed: no amount of real time triggers a transition.
    spin(60);
    p.update();
    assert!(!p.is_on_break());
    assert_eq!(p.remaining(), 5000);
}

#[test]
fn largest_durations_do_not_overflow() {
    let cfg = PomdConfig {
        work_duration: u64::MAX,
        short_break_duration: u64::MAX,
        long_break_duration: u64::MAX,
        num_iterations: 255,
        notify: false,
    };
    let mut p = Pomd::new(cfg);
    assert_eq!(p.remaining(), u64::MAX);
    p.start();
    p.update_with_elapsed(u64::MAX);
    assert!(p.is_on_break());
    assert_eq!(p.remaining(), u64::MAX);
}

#[test]
fn remaining_from_floors_at_zero() {
    let p = Pomd::new(small_config(false));
    assert_eq!(p.remaining_from(0), 5000);
    assert_eq!(p.remaining_from(1), 4999);
    assert_eq!(p.remaining_from(5000), 0);
    assert_eq!(p.remaining_from(u64::MAX), 0);
}

#[test]
fn pause_at_freezes_at_reading() {
    // The clock is created paused with zero elapsed time, so the first phase
    // starts at reading 0 and a pause at reading 1200 freezes 1200 ms in.
    let mut p = Pomd::new(small_config(false));
    p.start();
    p.pause_at(1200);
    assert!(!p.is_running());
    assert_eq!(p.remaining(), 3800);
    // A reading earlier than the phase start saturates at zero elapsed.
    p.pause_at(0);
    assert_eq!(p.remaining(), 5000);
}

#[test]
fn remaining_decreases_with_elapsed() {
    let p = Pomd::new(small_config(false));
    let mut last: u64 = p.remaining_from(0);
    for elapsed in [1u64, 500, 2500, 4999, 5000, 6000] {
        let r = p.remaining_from(elapsed);
        assert!(r <= last, "remaining must not grow as elapsed time grows");
        last = r;
    }
}

#[test]
fn notification_summary_texts() {
    let mut p = Pomd::new(PomdConfig::default());
    assert_eq!(p.notification_summary(), "Pomodoro Complete (1/4)");
    p.skip();
    assert_eq!(p.notification_summary(), "Break Complete");
    p.skip();
    assert_eq!(p.notification_summary(), "Pomodoro Complete (2/4)");
}
