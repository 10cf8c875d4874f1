//! The controller facade: the state transitions behind the thread-safe
//! entry points `set_solid`, `set_pulse`, `stop_pulse`, `off`,
//! `is_connected` and `device_info`, and the decision that maps an
//! weather outcome onto one of those entry points.
//!
//! The hosting binary wraps the controller in a lock shared between its
//! callers and the scheduler loop; every blocking operation — the actual
//! device write, the reconnect enumeration, the sleeps — happens outside
//! the lock, on the plain values these functions take and return.
//!
//! The shared pulse state carries an epoch counter that advances exactly
//! when the state is replaced. The scheduler latches the epoch along with
//! the cycle start, so a genuinely new pulse restarts the eased cycle
//! while a repeated, bit-for-bit identical request leaves it running.

use vstd::prelude::*;

use crate::busylight::Busylight;
use crate::busylight::DeviceInfo;
use crate::busylight::wire_frame_spec;
use crate::color::apply_brightness;
use crate::color::apply_brightness_spec;
use crate::color::degamma_spec;
use crate::pulse::PulseState;
use crate::pulse::SchedState;
use crate::pulse::tick_sched_spec;

verus! {

/// The shared animation target together with its epoch: the epoch
/// advances exactly when the state is replaced.
#[derive(Clone, Copy, Debug)]
pub struct PulseShared {
    pub state: PulseState,
    pub epoch: u64,
}

/// The epoch after a replacement (wrapping around at the top).
pub open spec fn bump_epoch_spec(e: u64) -> u64 {
    if e == u64::MAX {
        0
    } else {
        (e + 1) as u64
    }
}

/// The shared pulse state after a `set_pulse` request: identical
/// parameters leave it untouched; anything else replaces the state and
/// advances the epoch.
pub open spec fn set_pulse_spec(sh: PulseShared, desired: PulseState) -> PulseShared {
    if sh.state == desired {
        sh
    } else {
        PulseShared { state: desired, epoch: bump_epoch_spec(sh.epoch) }
    }
}

/// The thread-safe boundary exposed to callers: the device session, the
/// manual-override flag consulted by external orchestration, and the
/// shared animation state the scheduler reads.
pub struct BusylightController {
    pub bl: Busylight,
    pub manual_mode: bool,
    pub pulse_state: PulseShared,
}

impl BusylightController {
    /// The controller's structural invariant: the session's.
    pub open spec fn wf(&self) -> bool {
        self.bl.wf()
    }

    /// A fresh controller: unconnected session, manual override off, and
    /// an inactive default pulse envelope.
    pub fn new() -> (c: BusylightController)
        ensures
            c.wf(),
            !c.bl.connected,
            !c.manual_mode,
            c.pulse_state.epoch == 0,
            c.pulse_state.state == (PulseState {
                active: false,
                color_srgb: (0u8, 0u8, 0u8),
                pct_high: 100u8,
                pct_low: 50u8,
                speed_ms: 1000u64,
            }),
    {
        BusylightController {
            bl: Busylight::new(),
            manual_mode: false,
            pulse_state: PulseShared {
                state: PulseState {
                    active: false,
                    color_srgb: (0, 0, 0),
                    pct_high: 100,
                    pct_low: 50,
                    speed_ms: 1000,
                },
                epoch: 0,
            },
        }
    }

    /// Replaces the shared animation state for a pulse request, unless
    /// the request is bit-for-bit identical to the stored state — then
    /// this is a no-op, so rapid duplicate calls cannot restart the
    /// cycle. The scheduler picks a replacement up on its next tick.
    pub fn set_pulse(&mut self, r: u8, g: u8, b: u8, pct_high: u8, pct_low: u8, speed_ms: u64)
        requires
            old(self).wf(),
        ensures
            final(self).wf(),
            final(self).bl == old(self).bl,
            final(self).manual_mode == old(self).manual_mode,
            final(self).pulse_state == set_pulse_spec(
                old(self).pulse_state,
                (PulseState {
                    active: true,
                    color_srgb: (r, g, b),
                    pct_high: pct_high,
                    pct_low: pct_low,
                    speed_ms: speed_ms,
                }),
            ),
    {
        let desired = PulseState {
            active: true,
            color_srgb: (r, g, b),
            pct_high,
            pct_low,
            speed_ms,
        };
        if !(self.pulse_state.state == desired) {
            self.pulse_state.state = desired;
            self.pulse_state.epoch = if self.pulse_state.epoch == u64::MAX {
                0
            } else {
                self.pulse_state.epoch + 1
            };
        }
    }

    /// Deactivates pulsing. The light keeps its last frame: a caller that
    /// wants it dark follows up with `off` or a solid color.
    pub fn stop_pulse(&mut self)
        requires
            old(self).wf(),
        ensures
            final(self).wf(),
            final(self).bl == old(self).bl,
            final(self).manual_mode == old(self).manual_mode,
            final(self).pulse_state.epoch == old(self).pulse_state.epoch,
            final(self).pulse_state.state == (PulseState {
                active: false,
                ..old(self).pulse_state.state
            }),
    {
        self.pulse_state.state.active = false;
    }

    /// Stops pulsing and pushes one degamma-corrected solid frame,
    /// returning the wire payload the hosting binary must write (none if
    /// no device is open).
    pub fn set_solid(&mut self, r: u8, g: u8, b: u8) -> (frame: Option<Vec<u8>>)
        requires
            old(self).wf(),
        ensures
            final(self).wf(),
            final(self).manual_mode == old(self).manual_mode,
            final(self).pulse_state.epoch == old(self).pulse_state.epoch,
            final(self).pulse_state.state == (PulseState {
                active: false,
                ..old(self).pulse_state.state
            }),
            Busylight::same_but_buffer(final(self).bl, old(self).bl),
            final(self).bl.buffer@ == old(self).bl.buffer@.update(3, degamma_spec(r)).update(
                4,
                degamma_spec(g),
            ).update(5, degamma_spec(b)),
            final(self).bl.connected ==> (frame matches Some(f) && f@ == wire_frame_spec(
                final(self).bl,
            )),
            !final(self).bl.connected ==> frame is None,
    {
        self.stop_pulse();
        self.bl.light(r, g, b)
    }

    /// Blanks the light: `set_solid` of black.
    pub fn off(&mut self) -> (frame: Option<Vec<u8>>)
        requires
            old(self).wf(),
        ensures
            final(self).wf(),
            final(self).manual_mode == old(self).manual_mode,
            final(self).pulse_state.epoch == old(self).pulse_state.epoch,
            final(self).pulse_state.state == (PulseState {
                active: false,
                ..old(self).pulse_state.state
            }),
            Busylight::same_but_buffer(final(self).bl, old(self).bl),
            final(self).bl.buffer@ == old(self).bl.buffer@.update(3, 0u8).update(4, 0u8).update(
                5,
                0u8,
            ),
            final(self).bl.connected ==> (frame matches Some(f) && f@ == wire_frame_spec(
                final(self).bl,
            )),
            !final(self).bl.connected ==> frame is None,
    {
        assert(degamma_spec(0) == 0);
        self.set_solid(0, 0, 0)
    }

    /// Read-only passthrough: whether a device is open.
    pub fn is_connected(&self) -> (r: bool)
        ensures
            r == self.bl.connected,
    {
        self.bl.is_connected()
    }

    /// Read-only passthrough: the connected device's descriptor.
    pub fn device_info(&self) -> (r: Option<DeviceInfo>)
        ensures
            r is Some <==> self.bl.info is Some,
            r matches Some(i) ==> (self.bl.info matches Some(own) && i@ == own@),
    {
        self.bl.get_info()
    }

    /// Sets the manual-override flag. While set, external orchestration
    /// must leave the light to the manual controls; the flag is advisory
    /// state for the orchestrator, not enforced here.
    pub fn set_manual_mode(&mut self, enabled: bool)
        requires
            old(self).wf(),
        ensures
            final(self).wf(),
            final(self).bl == old(self).bl,
            final(self).pulse_state == old(self).pulse_state,
            final(self).manual_mode == enabled,
    {
        self.manual_mode = enabled;
    }
}

/// Requesting the same pulse twice changes nothing the second time: the
/// shared state and in particular the epoch come out exactly as after
/// the first request. A scheduler that latched its cycle on the first
/// request's epoch therefore keeps its cycle start across the duplicate:
/// the animation phase is not restarted.
pub proof fn lemma_set_pulse_idempotent(
    sh: PulseShared,
    desired: PulseState,
    sched: SchedState,
    now_ms: u64,
)
    requires
        desired.active,
        sched.was_active,
        sched.epoch_seen == set_pulse_spec(sh, desired).epoch,
    ensures
        set_pulse_spec(set_pulse_spec(sh, desired), desired) == set_pulse_spec(sh, desired),
        tick_sched_spec(
            sched,
            set_pulse_spec(set_pulse_spec(sh, desired), desired).state,
            set_pulse_spec(set_pulse_spec(sh, desired), desired).epoch,
            now_ms,
        ).cycle_start_ms == sched.cycle_start_ms,
{
}

/// What the orchestrator must do to the light for one weather outcome:
/// keep it dark for night mode or a black color, pulse on precipitation
/// when pulsing is enabled, and otherwise show the solid color dimmed to
/// the configured brightness ceiling.
#[derive(Clone, Copy, Debug)]
pub enum LightCommand {
    /// Blank the light.
    Off,
    /// Start (or keep) pulsing the given color between the two
    /// percentages of the perceived-brightness envelope.
    Pulse { color: (u8, u8, u8), pct_high: u8, pct_low: u8, speed_ms: u64 },
    /// Show one solid color.
    Solid { color: (u8, u8, u8) },
}

/// The command a weather outcome maps to.
pub open spec fn decide_light_spec(
    rgb: (u8, u8, u8),
    is_night_mode: bool,
    has_precipitation: bool,
    pulse_enabled: bool,
    max_brightness: u8,
    pulse_speed_ms: u64,
) -> LightCommand {
    if is_night_mode || rgb == (0u8, 0u8, 0u8) {
        LightCommand::Off
    } else if has_precipitation && pulse_enabled {
        LightCommand::Pulse {
            color: rgb,
            pct_high: max_brightness,
            pct_low: (max_brightness / 2) as u8,
            speed_ms: pulse_speed_ms,
        }
    } else {
        LightCommand::Solid { color: apply_brightness_spec(rgb, max_brightness) }
    }
}

/// Maps one weather outcome — the color chosen for the current
/// temperature, the night flag, and the precipitation flag — together
/// with the configured pulse settings onto the facade call to make.
pub fn decide_light(
    rgb: (u8, u8, u8),
    is_night_mode: bool,
    has_precipitation: bool,
    pulse_enabled: bool,
    max_brightness: u8,
    pulse_speed_ms: u64,
) -> (cmd: LightCommand)
    ensures
        cmd == decide_light_spec(
            rgb,
            is_night_mode,
            has_precipitation,
            pulse_enabled,
            max_brightness,
            pulse_speed_ms,
        ),
{
    if is_night_mode || (rgb.0 == 0 && rgb.1 == 0 && rgb.2 == 0) {
        LightCommand::Off
    } else if has_precipitation && pulse_enabled {
        LightCommand::Pulse {
            color: rgb,
            pct_high: max_brightness,
            pct_low: max_brightness / 2,
            speed_ms: pulse_speed_ms,
        }
    } else {
        LightCommand::Solid { color: apply_brightness(rgb, max_brightness) }
    }
}

} // verus!
