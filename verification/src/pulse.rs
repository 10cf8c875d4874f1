//! The pulse animation: eased triangle-wave brightness interpolation and
//! the per-tick decisions of the background scheduler.
//!
//! A pulse cycle of `speed_ms` milliseconds is split into two equal
//! halves: brightness descends from the high percentage to the low one,
//! then ascends back. Within a half, the linear progress through the half
//! is passed through a sinusoidal ease, 0.5 + 0.5*sin(pi*t - pi/2), so the
//! two reversal points are smoothed and the hardware does not visibly
//! strobe at the turnarounds. The ease is tabulated in 16.16 fixed point
//! over 65 steps; its endpoints are exact, so the interpolated percentage
//! meets the un-eased high and low values exactly at the cycle boundaries.
//!
//! The scheduler itself is a pure state machine here: the hosting binary
//! loops, sleeps, and sends, but every decision — idle keep-alive pacing,
//! cycle-start latching, degenerate-period fallback, and the frame color —
//! is computed and specified in this module.

use vstd::prelude::*;

use crate::color::apply_brightness;
use crate::color::apply_brightness_spec;

verus! {

/// Scale of the fixed-point ease: 65536 means an ease of 1.0.
pub const EASE_ONE: u32 = 65536;

/// Number of quantized steps of the ease within one half-cycle.
pub const EASE_STEPS: u8 = 64;

/// Milliseconds the scheduler sleeps after an idle or degenerate tick.
pub const IDLE_SLEEP_MS: u64 = 100;

/// Milliseconds the scheduler sleeps after sending an animation frame
/// (about 30 frames per second).
pub const FRAME_SLEEP_MS: u64 = 33;

/// Idle ticks between keep-alive sends (about 2 seconds at 100 ms).
pub const KEEPALIVE_TICKS: u32 = 20;

/// The shared animation target state, written by the controller facade
/// and read as a snapshot by the scheduler once per tick.
#[derive(Clone, Copy, Debug)]
pub struct PulseState {
    pub active: bool,
    pub color_srgb: (u8, u8, u8),
    pub pct_high: u8,
    pub pct_low: u8,
    pub speed_ms: u64,
}

impl PartialEq for PulseState {
    fn eq(&self, other: &PulseState) -> (r: bool)
        ensures
            r <==> (*self == *other),
    {
        self.active == other.active && self.color_srgb.0 == other.color_srgb.0
            && self.color_srgb.1 == other.color_srgb.1 && self.color_srgb.2 == other.color_srgb.2
            && self.pct_high == other.pct_high && self.pct_low == other.pct_low
            && self.speed_ms == other.speed_ms
    }
}

impl vstd::std_specs::cmp::PartialEqSpecImpl for PulseState {
    open spec fn obeys_eq_spec() -> bool {
        true
    }

    open spec fn eq_spec(&self, other: &PulseState) -> bool {
        *self == *other
    }
}

impl Eq for PulseState {

}

/// The sinusoidal ease 0.5 + 0.5*sin(pi*k/64 - pi/2), tabulated in 16.16
/// fixed point and rounded to nearest. Steps past the last one saturate.
pub open spec fn ease_q16_spec(k: u8) -> u32 {
    match k {
        0 => 0,
        1 => 39,
        2 => 158,
        3 => 355,
        4 => 630,
        5 => 982,
        6 => 1411,
        7 => 1915,
        8 => 2494,
        9 => 3146,
        10 => 3869,
        11 => 4662,
        12 => 5522,
        13 => 6448,
        14 => 7438,
        15 => 8489,
        16 => 9598,
        17 => 10762,
        18 => 11980,
        19 => 13248,
        20 => 14563,
        21 => 15922,
        22 => 17321,
        23 => 18758,
        24 => 20228,
        25 => 21729,
        26 => 23256,
        27 => 24806,
        28 => 26375,
        29 => 27960,
        30 => 29556,
        31 => 31160,
        32 => 32768,
        33 => 34376,
        34 => 35980,
        35 => 37576,
        36 => 39161,
        37 => 40730,
        38 => 42280,
        39 => 43807,
        40 => 45308,
        41 => 46778,
        42 => 48215,
        43 => 49614,
        44 => 50973,
        45 => 52288,
        46 => 53556,
        47 => 54774,
        48 => 55938,
        49 => 57047,
        50 => 58098,
        51 => 59088,
        52 => 60014,
        53 => 60874,
        54 => 61667,
        55 => 62390,
        56 => 63042,
        57 => 63621,
        58 => 64125,
        59 => 64554,
        60 => 64906,
        61 => 65181,
        62 => 65378,
        63 => 65497,
        64 => 65536,
        _ => 65536,
    }
}

/// Looks up the fixed-point ease value of a quantized progress step.
pub fn ease_q16(k: u8) -> (e: u32)
    ensures
        e == ease_q16_spec(k),
        e <= EASE_ONE,
{
    match k {
        0 => 0,
        1 => 39,
        2 => 158,
        3 => 355,
        4 => 630,
        5 => 982,
        6 => 1411,
        7 => 1915,
        8 => 2494,
        9 => 3146,
        10 => 3869,
        11 => 4662,
        12 => 5522,
        13 => 6448,
        14 => 7438,
        15 => 8489,
        16 => 9598,
        17 => 10762,
        18 => 11980,
        19 => 13248,
        20 => 14563,
        21 => 15922,
        22 => 17321,
        23 => 18758,
        24 => 20228,
        25 => 21729,
        26 => 23256,
        27 => 24806,
        28 => 26375,
        29 => 27960,
        30 => 29556,
        31 => 31160,
        32 => 32768,
        33 => 34376,
        34 => 35980,
        35 => 37576,
        36 => 39161,
        37 => 40730,
        38 => 42280,
        39 => 43807,
        40 => 45308,
        41 => 46778,
        42 => 48215,
        43 => 49614,
        44 => 50973,
        45 => 52288,
        46 => 53556,
        47 => 54774,
        48 => 55938,
        49 => 57047,
        50 => 58098,
        51 => 59088,
        52 => 60014,
        53 => 60874,
        54 => 61667,
        55 => 62390,
        56 => 63042,
        57 => 63621,
        58 => 64125,
        59 => 64554,
        60 => 64906,
        61 => 65181,
        62 => 65378,
        63 => 65497,
        64 => 65536,
        _ => 65536,
    }
}

/// Position within the cycle is in the descending (high-to-low) half.
pub open spec fn descending_spec(speed_ms: u64, position: u64) -> bool {
    (position as int) < speed_ms as int / 2
}

/// The quantized progress step through the current half-cycle.
pub open spec fn ease_index_spec(speed_ms: u64, position: u64) -> int {
    let half = speed_ms as int / 2;
    let num = if descending_spec(speed_ms, position) {
        position as int
    } else {
        position as int - half
    };
    if half == 0 {
        0
    } else if 64 * num / half > 64 {
        64
    } else {
        64 * num / half
    }
}

/// The interpolated perceived-brightness percentage in 16.16 fixed point:
/// descending runs from the high percentage down, ascending from the low
/// percentage up. An inverted envelope (low above high) is tolerated and
/// simply interpolates the other way.
pub open spec fn interp_pct_q16(pct_high: u8, pct_low: u8, ease: int, descending: bool) -> int {
    if descending {
        pct_high as int * 65536 - (pct_high as int - pct_low as int) * ease
    } else {
        pct_low as int * 65536 + (pct_high as int - pct_low as int) * ease
    }
}

/// The perceived-brightness percentage of a cycle position, rounded to
/// the nearest whole percent.
pub open spec fn pct_at_spec(pct_high: u8, pct_low: u8, speed_ms: u64, position: u64) -> int {
    let descending = descending_spec(speed_ms, position);
    let e = ease_q16_spec(ease_index_spec(speed_ms, position) as u8) as int;
    (interp_pct_q16(pct_high, pct_low, e, descending) + 32768) / 65536
}

/// The raw (non-degamma) frame color of a cycle position: the stored
/// color scaled by the brightness power law at the interpolated
/// percentage.
pub open spec fn pulse_frame_spec(
    color: (u8, u8, u8),
    pct_high: u8,
    pct_low: u8,
    speed_ms: u64,
    position: u64,
) -> (u8, u8, u8) {
    apply_brightness_spec(color, pct_at_spec(pct_high, pct_low, speed_ms, position) as u8)
}

/// The interpolated fixed-point percentage stays between 0 and 255
/// percent whenever the ease is at most 1.0.
proof fn lemma_interp_in_range(pct_high: u8, pct_low: u8, ease: int, descending: bool)
    requires
        0 <= ease <= 65536,
    ensures
        0 <= interp_pct_q16(pct_high, pct_low, ease, descending) <= 255 * 65536,
{
    let h = pct_high as int;
    let l = pct_low as int;
    assert(0 <= h * 65536 - (h - l) * ease <= 255 * 65536 && 0 <= l * 65536 + (h - l) * ease
        <= 255 * 65536) by (nonlinear_arith)
        requires
            0 <= h <= 255,
            0 <= l <= 255,
            0 <= ease <= 65536,
    ;
}

/// Computes one animation frame from the cycle position, entirely in
/// integer arithmetic. The cycle is split at `speed_ms / 2`; each half
/// maps its progress through the tabulated ease onto the percentage
/// envelope, and the brightness power law scales the stored color.
pub fn pulse_frame(
    color: (u8, u8, u8),
    pct_high: u8,
    pct_low: u8,
    speed_ms: u64,
    position: u64,
) -> (frame: (u8, u8, u8))
    requires
        speed_ms > 0,
        position < speed_ms,
    ensures
        frame == pulse_frame_spec(color, pct_high, pct_low, speed_ms, position),
{
    let half: u64 = speed_ms / 2;
    let descending: bool = position < half;
    let num: u64 = if descending {
        position
    } else {
        position - half
    };
    assert(num <= half);
    let k: u8 = if half == 0 {
        0
    } else {
        let wide: u128 = (num as u128) * 64 / (half as u128);
        proof {
            assert((num as int) * 64 / (half as int) <= 64 && 0 <= (num as int) * 64 / (
            half as int)) by (nonlinear_arith)
                requires
                    0 < half,
                    0 <= num <= half,
            ;
        }
        wide as u8
    };
    assert(k as int == ease_index_spec(speed_ms, position));
    let e: u32 = ease_q16(k);
    let h: i64 = pct_high as i64;
    let l: i64 = pct_low as i64;
    proof {
        lemma_interp_in_range(pct_high, pct_low, e as int, descending);
    }
    let q: i64 = if descending {
        h * 65536 - (h - l) * (e as i64)
    } else {
        l * 65536 + (h - l) * (e as i64)
    };
    let pct: u8 = (((q as u64) + 32768) / 65536) as u8;
    apply_brightness(color, pct)
}

/// The eased interpolation meets the un-eased envelope exactly at the
/// boundaries of each half-cycle: at zero progress the descending half
/// sits exactly on the high percentage and the ascending half exactly on
/// the low one; at full progress they sit exactly on the low and high
/// percentages respectively. There is no discontinuity at a reversal.
pub proof fn lemma_ease_boundary_exact(pct_high: u8, pct_low: u8)
    ensures
        ease_q16_spec(0) == 0,
        ease_q16_spec(EASE_STEPS) == EASE_ONE,
        (interp_pct_q16(pct_high, pct_low, 0, true) + 32768) / 65536 == pct_high,
        (interp_pct_q16(pct_high, pct_low, EASE_ONE as int, true) + 32768) / 65536 == pct_low,
        (interp_pct_q16(pct_high, pct_low, 0, false) + 32768) / 65536 == pct_low,
        (interp_pct_q16(pct_high, pct_low, EASE_ONE as int, false) + 32768) / 65536 == pct_high,
{
    let h = pct_high as int;
    let l = pct_low as int;
    assert(interp_pct_q16(pct_high, pct_low, 65536, true) == l * 65536);
    assert(interp_pct_q16(pct_high, pct_low, 65536, false) == h * 65536);
    lemma_round_exact(h);
    lemma_round_exact(l);
}

proof fn lemma_round_exact(p: int)
    requires
        0 <= p,
    ensures
        (p * 65536 + 32768) / 65536 == p,
{
    assert((p * 65536 + 32768) / 65536 == p) by (nonlinear_arith)
        requires
            0 <= p,
    ;
}

/// The scheduler's private per-tick bookkeeping: the idle keep-alive
/// counter and the latched start of the current pulse cycle, tagged with
/// the epoch of the shared state it was latched for.
#[derive(Clone, Copy, PartialEq, Eq, Structural, Debug)]
pub struct SchedState {
    pub idle_ticks: u32,
    pub was_active: bool,
    pub epoch_seen: u64,
    pub cycle_start_ms: u64,
}

/// What one scheduler tick asks the hosting loop to do: sleep idle, send
/// the current buffer unchanged as a keep-alive, or send one raw
/// animation frame.
#[derive(Clone, Copy, PartialEq, Eq, Structural, Debug)]
pub enum TickAction {
    Idle,
    KeepAlive,
    Frame(u8, u8, u8),
}

/// A fresh scheduler state: no cycle latched, keep-alive counter at zero.
pub open spec fn sched_init_spec() -> SchedState {
    SchedState { idle_ticks: 0, was_active: false, epoch_seen: 0, cycle_start_ms: 0 }
}

/// Creates the scheduler bookkeeping a hosting loop starts from.
pub fn sched_init() -> (s: SchedState)
    ensures
        s == sched_init_spec(),
{
    SchedState { idle_ticks: 0, was_active: false, epoch_seen: 0, cycle_start_ms: 0 }
}

/// Whether the tick latches a new cycle start: on entering the pulsing
/// state, and whenever the shared state was replaced (a new epoch) since
/// the cycle was latched.
pub open spec fn latches_spec(s: SchedState, epoch: u64) -> bool {
    !s.was_active || s.epoch_seen != epoch
}

/// The cycle position a pulsing tick samples: elapsed time since the
/// latched start, modulo the period.
pub open spec fn position_spec(start: u64, speed_ms: u64, now_ms: u64) -> int {
    let elapsed = if now_ms >= start {
        now_ms - start
    } else {
        0
    };
    elapsed % speed_ms as int
}

/// The scheduler bookkeeping after one tick.
pub open spec fn tick_sched_spec(s: SchedState, ps: PulseState, epoch: u64, now_ms: u64) -> SchedState {
    if ps.active {
        SchedState {
            idle_ticks: 0,
            was_active: true,
            epoch_seen: epoch,
            cycle_start_ms: if latches_spec(s, epoch) {
                now_ms
            } else {
                s.cycle_start_ms
            },
        }
    } else {
        SchedState {
            idle_ticks: if s.idle_ticks >= (KEEPALIVE_TICKS - 1) as u32 {
                0
            } else {
                (s.idle_ticks + 1) as u32
            },
            was_active: false,
            epoch_seen: s.epoch_seen,
            cycle_start_ms: s.cycle_start_ms,
        }
    }
}

/// The action one tick requests. Idle ticks count toward a keep-alive
/// send every twentieth tick; a pulsing tick with a zero period sends
/// nothing and falls back to the idle sleep; any other pulsing tick sends
/// the frame of the current cycle position.
pub open spec fn tick_action_spec(s: SchedState, ps: PulseState, epoch: u64, now_ms: u64) -> TickAction {
    if ps.active {
        if ps.speed_ms == 0 {
            TickAction::Idle
        } else {
            let st = tick_sched_spec(s, ps, epoch, now_ms);
            let pos = position_spec(st.cycle_start_ms, ps.speed_ms, now_ms) as u64;
            let f = pulse_frame_spec(ps.color_srgb, ps.pct_high, ps.pct_low, ps.speed_ms, pos);
            TickAction::Frame(f.0, f.1, f.2)
        }
    } else {
        if s.idle_ticks >= (KEEPALIVE_TICKS - 1) as u32 {
            TickAction::KeepAlive
        } else {
            TickAction::Idle
        }
    }
}

/// Runs one scheduler tick over a snapshot of the shared animation state.
/// `epoch` tags the snapshot: the facade bumps it whenever it replaces
/// the state, so a tick can tell a genuinely new pulse from a repeated,
/// identical request. `now_ms` is the hosting loop's monotonic clock.
pub fn scheduler_tick(s: &mut SchedState, ps: &PulseState, epoch: u64, now_ms: u64) -> (action:
    TickAction)
    ensures
        *final(s) == tick_sched_spec(*old(s), *ps, epoch, now_ms),
        action == tick_action_spec(*old(s), *ps, epoch, now_ms),
{
    if ps.active {
        let latch: bool = !s.was_active || s.epoch_seen != epoch;
        if latch {
            s.cycle_start_ms = now_ms;
        }
        s.was_active = true;
        s.epoch_seen = epoch;
        s.idle_ticks = 0;
        if ps.speed_ms == 0 {
            TickAction::Idle
        } else {
            let elapsed: u64 = if now_ms >= s.cycle_start_ms {
                now_ms - s.cycle_start_ms
            } else {
                0
            };
            let position: u64 = elapsed % ps.speed_ms;
            let f = pulse_frame(ps.color_srgb, ps.pct_high, ps.pct_low, ps.speed_ms, position);
            TickAction::Frame(f.0, f.1, f.2)
        }
    } else {
        s.was_active = false;
        if s.idle_ticks >= KEEPALIVE_TICKS - 1 {
            s.idle_ticks = 0;
            TickAction::KeepAlive
        } else {
            s.idle_ticks = s.idle_ticks + 1;
            TickAction::Idle
        }
    }
}

/// How long the hosting loop sleeps after a tick: the frame cadence of
/// about 30 frames per second after an animation frame, the idle pace
/// otherwise.
pub fn tick_sleep_ms(action: &TickAction) -> (ms: u64)
    ensures
        ms == (if action is Frame {
            FRAME_SLEEP_MS as int
        } else {
            IDLE_SLEEP_MS as int
        }),
{
    match action {
        TickAction::Frame(_, _, _) => FRAME_SLEEP_MS,
        _ => IDLE_SLEEP_MS,
    }
}

/// A zero-length period never divides: the tick falls back to the idle
/// sleep and generates no frame.
pub proof fn lemma_zero_period_idles(s: SchedState, ps: PulseState, epoch: u64, now_ms: u64)
    requires
        ps.active,
        ps.speed_ms == 0,
    ensures
        tick_action_spec(s, ps, epoch, now_ms) == TickAction::Idle,
{
}

/// A tick that sees the same epoch it latched, while already pulsing,
/// never resets the cycle start: repeated identical pulse requests do not
/// restart the animation.
pub proof fn lemma_cycle_start_preserved(s: SchedState, ps: PulseState, epoch: u64, now_ms: u64)
    requires
        ps.active,
        s.was_active,
        s.epoch_seen == epoch,
    ensures
        tick_sched_spec(s, ps, epoch, now_ms).cycle_start_ms == s.cycle_start_ms,
{
}

} // verus!
