use weatherlight::color::apply_brightness;
use weatherlight::controller::BusylightController;
use weatherlight::pulse::PulseState;
use weatherlight::pulse::TickAction;
use weatherlight::pulse::sched_init;
use weatherlight::pulse::pulse_frame;
use weatherlight::pulse::scheduler_tick;
use weatherlight::pulse::tick_sleep_ms;

fn pulsing(speed_ms: u64) -> PulseState {
    PulseState {
        active: true,
        color_srgb: (100, 150, 200),
        pct_high: 80,
        pct_low: 20,
        speed_ms,
    }
}

fn idle() -> PulseState {
    PulseState { active: false, color_srgb: (0, 0, 0), pct_high: 100, pct_low: 50, speed_ms: 1000 }
}

#[test]
fn frame_at_cycle_start_is_exactly_high() {
    // Progress 0 of the descending half: the un-eased high percentage.
    let frame = pulse_frame((100, 150, 200), 80, 20, 1000, 0);
    assert_eq!(frame, apply_brightness((100, 150, 200), 80));
}

#[test]
fn frame_at_half_cycle_is_exactly_low() {
    // Progress 0 of the ascending half: the un-eased low percentage.
    let frame = pulse_frame((100, 150, 200), 80, 20, 1000, 500);
    assert_eq!(frame, apply_brightness((100, 150, 200), 20));
}

#[test]
fn frame_mid_half_is_eased_midpoint() {
    // Halfway down the descending half the ease is exactly 0.5, so the
    // percentage lands midway between 80 and 20.
    let frame = pulse_frame((100, 150, 200), 80, 20, 1000, 250);
    assert_eq!(frame, apply_brightness((100, 150, 200), 50));
}

#[test]
fn inverted_envelope_is_tolerated() {
    // low above high is not rejected: the wave simply runs the other way.
    let up = pulse_frame((100, 150, 200), 20, 80, 1000, 0);
    assert_eq!(up, apply_brightness((100, 150, 200), 20));
    let down = pulse_frame((100, 150, 200), 20, 80, 1000, 500);
    assert_eq!(down, apply_brightness((100, 150, 200), 80));
}

#[test]
fn tiny_periods_do_not_panic() {
    let _ = pulse_frame((100, 150, 200), 80, 20, 1, 0);
    let _ = pulse_frame((100, 150, 200), 80, 20, 2, 1);
    let _ = pulse_frame((100, 150, 200), 80, 20, 3, 2);
}

#[test]
fn zero_period_falls_back_to_idle_sleep() {
    let mut sched = sched_init();
    let action = scheduler_tick(&mut sched, &pulsing(0), 1, 5_000);
    assert_eq!(action, TickAction::Idle);
    assert_eq!(tick_sleep_ms(&action), 100);
    // And again on the next tick: it stays in the fallback, no crash.
    let action = scheduler_tick(&mut sched, &pulsing(0), 1, 5_100);
    assert_eq!(action, TickAction::Idle);
}

#[test]
fn pulsing_tick_emits_frames_at_frame_cadence() {
    let mut sched = sched_init();
    let action = scheduler_tick(&mut sched, &pulsing(1000), 1, 5_000);
    let expected = apply_brightness((100, 150, 200), 80);
    assert_eq!(action, TickAction::Frame(expected.0, expected.1, expected.2));
    assert_eq!(tick_sleep_ms(&action), 33);
    // 500 ms later the wave sits exactly on the low percentage.
    let action = scheduler_tick(&mut sched, &pulsing(1000), 1, 5_500);
    let expected = apply_brightness((100, 150, 200), 20);
    assert_eq!(action, TickAction::Frame(expected.0, expected.1, expected.2));
}

#[test]
fn idle_ticks_send_keepalive_every_twentieth() {
    let mut sched = sched_init();
    let mut actions = Vec::new();
    for t in 0..40u64 {
        actions.push(scheduler_tick(&mut sched, &idle(), 0, t * 100));
    }
    let keepalives = actions.iter().filter(|a| matches!(a, TickAction::KeepAlive)).count();
    assert_eq!(keepalives, 2);
    assert_eq!(actions[19], TickAction::KeepAlive);
    assert_eq!(actions[39], TickAction::KeepAlive);
    assert!(actions[..19].iter().all(|a| matches!(a, TickAction::Idle)));
}

#[test]
fn activation_resets_idle_counter() {
    let mut sched = sched_init();
    for t in 0..15u64 {
        scheduler_tick(&mut sched, &idle(), 0, t * 100);
    }
    scheduler_tick(&mut sched, &pulsing(1000), 1, 1_500);
    // Back to idle: the keep-alive counter starts over.
    for t in 0..20u64 {
        let action = scheduler_tick(&mut sched, &idle(), 1, 1_600 + t * 100);
        if t < 19 {
            assert_eq!(action, TickAction::Idle);
        } else {
            assert_eq!(action, TickAction::KeepAlive);
        }
    }
}

#[test]
fn duplicate_set_pulse_keeps_cycle_phase() {
    let mut ctrl = BusylightController::new();
    let mut sched = sched_init();

    ctrl.set_pulse(100, 150, 200, 80, 20, 1000);
    let epoch1 = ctrl.pulse_state.epoch;
    scheduler_tick(&mut sched, &ctrl.pulse_state.state, ctrl.pulse_state.epoch, 7_000);
    let start = sched.cycle_start_ms;
    assert_eq!(start, 7_000);

    // Bit-for-bit identical request: a no-op, the epoch does not move.
    ctrl.set_pulse(100, 150, 200, 80, 20, 1000);
    assert_eq!(ctrl.pulse_state.epoch, epoch1);

    // Two consecutive frames stay on the running cycle's phase: the
    // cycle start is not reset to the tick times.
    scheduler_tick(&mut sched, &ctrl.pulse_state.state, ctrl.pulse_state.epoch, 7_200);
    assert_eq!(sched.cycle_start_ms, start);
    scheduler_tick(&mut sched, &ctrl.pulse_state.state, ctrl.pulse_state.epoch, 7_400);
    assert_eq!(sched.cycle_start_ms, start);
}

#[test]
fn changed_set_pulse_restarts_cycle() {
    let mut ctrl = BusylightController::new();
    let mut sched = sched_init();

    ctrl.set_pulse(100, 150, 200, 80, 20, 1000);
    let epoch1 = ctrl.pulse_state.epoch;
    scheduler_tick(&mut sched, &ctrl.pulse_state.state, ctrl.pulse_state.epoch, 7_000);

    ctrl.set_pulse(100, 150, 200, 80, 20, 2000);
    assert_ne!(ctrl.pulse_state.epoch, epoch1);
    scheduler_tick(&mut sched, &ctrl.pulse_state.state, ctrl.pulse_state.epoch, 7_200);
    assert_eq!(sched.cycle_start_ms, 7_200);
}

#[test]
fn stop_pulse_deactivates_without_blanking() {
    let mut ctrl = BusylightController::new();
    ctrl.set_pulse(100, 150, 200, 80, 20, 1000);
    ctrl.stop_pulse();
    assert!(!ctrl.pulse_state.state.active);
    // The stored color is untouched; blanking is the caller's business.
    assert_eq!(ctrl.pulse_state.state.color_srgb, (100, 150, 200));
}
