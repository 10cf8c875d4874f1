//! The device session: discovery filtering, connect-time framing, frame
//! encoding for the active protocol variant, and the rate-limited
//! reconnect policy after a failed write.
//!
//! The session owns everything about the device except the open handle
//! itself. The hosting binary enumerates HID devices, opens paths and
//! performs the actual writes; this module decides which device to open,
//! fixes the report framing for its protocol variant, produces the exact
//! bytes of every wire payload, and decides when a failed write may
//! trigger a reconnect attempt.

use vstd::prelude::*;

use crate::color::apply_brightness;
use crate::color::apply_brightness_spec;
use crate::color::degamma;
use crate::color::degamma_spec;
use crate::protocol::LEGACY_WIRE_LEN;
use crate::protocol::REPORT_LEN;
use crate::protocol::ProtocolVariant;
use crate::protocol::checksummed;
use crate::protocol::classify_spec;
use crate::protocol::classify_vendor;
use crate::protocol::write_checksum;

verus! {

/// Milliseconds that must pass between two reconnect attempts provoked
/// by failed writes.
pub const RECONNECT_COOLDOWN_MS: u64 = 2000;

/// Immutable snapshot of one enumerated HID device, captured at connect
/// time and exposed read-only to callers.
#[derive(Debug)]
pub struct DeviceInfo {
    pub product: Option<String>,
    pub path: Option<String>,
    pub vendor_id: u16,
    pub product_id: u16,
}

/// The view of an optional owned string: the character sequence it holds.
pub open spec fn opt_string_view(s: Option<String>) -> Option<Seq<char>> {
    match s {
        Option::Some(x) => Option::Some(x@),
        Option::None => Option::None,
    }
}

/// Abstract value of a `DeviceInfo`: the same fields with strings taken
/// as character sequences.
pub struct DeviceInfoView {
    pub product: Option<Seq<char>>,
    pub path: Option<Seq<char>>,
    pub vendor_id: u16,
    pub product_id: u16,
}

impl View for DeviceInfo {
    type V = DeviceInfoView;

    open spec fn view(&self) -> DeviceInfoView {
        DeviceInfoView {
            product: opt_string_view(self.product),
            path: opt_string_view(self.path),
            vendor_id: self.vendor_id,
            product_id: self.product_id,
        }
    }
}

fn clone_opt_string(s: &Option<String>) -> (r: Option<String>)
    ensures
        opt_string_view(r) == opt_string_view(*s),
{
    match s {
        Option::Some(x) => Option::Some(x.clone()),
        Option::None => Option::None,
    }
}

impl Clone for DeviceInfo {
    fn clone(&self) -> (r: DeviceInfo)
        ensures
            r@ == self@,
    {
        DeviceInfo {
            product: clone_opt_string(&self.product),
            path: clone_opt_string(&self.path),
            vendor_id: self.vendor_id,
            product_id: self.product_id,
        }
    }
}

/// Why a connect attempt produced no session.
#[derive(Clone, Copy, PartialEq, Eq, Structural, Debug)]
pub enum ConnectError {
    /// Enumeration worked but no allow-listed device was present.
    NoDeviceFound,
    /// The host HID subsystem itself could not initialize.
    TransportInitFailed,
}

/// A vendor id on the fixed allow-list.
pub open spec fn allowed_vendor_spec(vendor_id: u16) -> bool {
    classify_spec(vendor_id) is Some
}

/// Picks the device a connect attempt opens: the first enumerated device
/// at or past `start` whose vendor id is allow-listed. `api_ok` reports
/// whether the host HID subsystem initialized at all. `start` lets a
/// caller resume the scan behind a device whose open failed.
pub fn select_device(devices: &Vec<DeviceInfo>, start: usize, api_ok: bool) -> (r: Result<
    usize,
    ConnectError,
>)
    ensures
        !api_ok ==> r == Err::<usize, ConnectError>(ConnectError::TransportInitFailed),
        api_ok ==> match r {
            Ok(i) => start <= i < devices@.len() && allowed_vendor_spec(devices@[i as int].vendor_id)
                && (forall|j: int|
                start <= j < i ==> !allowed_vendor_spec(devices@[j].vendor_id)),
            Err(e) => e == ConnectError::NoDeviceFound && (forall|j: int|
            start <= j < devices@.len() ==> !allowed_vendor_spec(devices@[j].vendor_id)),
        },
{
    if !api_ok {
        return Err(ConnectError::TransportInitFailed);
    }
    let mut i: usize = start;
    while i < devices.len()
        invariant
            api_ok,
            start <= i,
            i <= devices@.len() || i == start,
            forall|j: int| start <= j < i ==> !allowed_vendor_spec(devices@[j].vendor_id),
        decreases devices@.len() - i,
    {
        if classify_vendor(devices[i].vendor_id).is_some() {
            return Ok(i);
        }
        i = i + 1;
    }
    Err(ConnectError::NoDeviceFound)
}

/// The report buffer as first set up: all zero but for the legacy
/// terminator byte 8.
pub open spec fn init_buffer_spec() -> Seq<u8> {
    Seq::new(REPORT_LEN as nat, |i: int| if i == 8 { 128u8 } else { 0u8 })
}

/// The framing a connect establishes over an existing buffer. The legacy
/// format marks byte 1 as mode 0 and byte 8 with the fixed sentinel; the
/// extended format marks byte 1 as mode 16, clears the sentinel, and sets
/// the four disable-timeout bytes 59..=62. Only these framing bytes
/// change; color and reserved bytes keep their values.
pub open spec fn apply_framing_spec(s: Seq<u8>, variant: ProtocolVariant) -> Seq<u8> {
    match variant {
        ProtocolVariant::Legacy => s.update(1, 0u8).update(8, 128u8),
        ProtocolVariant::Extended => s.update(1, 16u8).update(8, 0u8).update(59, 255u8).update(
            60,
            255u8,
        ).update(61, 255u8).update(62, 255u8),
    }
}

/// The exact bytes one send puts on the wire: the whole checksummed
/// buffer for the extended format, the first 9 bytes verbatim for the
/// legacy one.
pub open spec fn wire_frame_spec(bl: Busylight) -> Seq<u8> {
    if bl.is_new_protocol {
        checksummed(bl.buffer@)
    } else {
        bl.buffer@.subrange(0, LEGACY_WIRE_LEN as int)
    }
}

/// A reconnect attempt is due when the cooldown has fully passed since
/// the last one.
pub open spec fn reconnect_due_spec(last_ms: u64, now_ms: u64) -> bool {
    now_ms >= last_ms && now_ms - last_ms > RECONNECT_COOLDOWN_MS
}

/// The session state for zero or one open devices: whether a handle is
/// currently open in the hosting binary, the descriptor captured at
/// connect time, the protocol variant decided by the vendor id, the
/// reused 65-byte report buffer, and the time of the last reconnect
/// attempt.
pub struct Busylight {
    pub connected: bool,
    pub info: Option<DeviceInfo>,
    pub is_new_protocol: bool,
    pub buffer: Vec<u8>,
    pub last_reconnect_ms: u64,
}

impl Busylight {
    /// The session's structural invariant: the report buffer always has
    /// its full fixed capacity.
    pub open spec fn wf(&self) -> bool {
        self.buffer@.len() == REPORT_LEN
    }

    /// All session fields but the buffer agree.
    pub open spec fn same_but_buffer(a: Busylight, b: Busylight) -> bool {
        a.connected == b.connected && a.info == b.info && a.is_new_protocol == b.is_new_protocol
            && a.last_reconnect_ms == b.last_reconnect_ms
    }

    /// A fresh, unconnected session with an initialized report buffer.
    pub fn new() -> (bl: Busylight)
        ensures
            bl.wf(),
            !bl.connected,
            bl.info is None,
            !bl.is_new_protocol,
            bl.last_reconnect_ms == 0,
            bl.buffer@ == init_buffer_spec(),
    {
        let mut buffer: Vec<u8> = vec![0u8; REPORT_LEN];
        buffer[8] = 128;
        proof {
            assert(buffer@ =~= init_buffer_spec());
        }
        Busylight { connected: false, info: None, is_new_protocol: false, buffer, last_reconnect_ms: 0 }
    }

    /// Records a successful open of an allow-listed device: captures its
    /// descriptor, classifies the protocol variant from the vendor id,
    /// and establishes the variant's framing bytes in the buffer.
    pub fn on_opened(&mut self, dev: &DeviceInfo)
        requires
            old(self).wf(),
            allowed_vendor_spec(dev.vendor_id),
        ensures
            final(self).wf(),
            final(self).connected,
            final(self).info matches Some(i) && i@ == dev@,
            final(self).is_new_protocol == (classify_spec(dev.vendor_id)->Some_0
                is Extended),
            final(self).buffer@ == apply_framing_spec(
                old(self).buffer@,
                classify_spec(dev.vendor_id)->Some_0,
            ),
            final(self).last_reconnect_ms == old(self).last_reconnect_ms,
    {
        let is_new: bool = dev.vendor_id == crate::protocol::VENDOR_EXTENDED;
        self.connected = true;
        self.info = Some(dev.clone());
        self.is_new_protocol = is_new;
        if is_new {
            self.buffer[1] = 16;
            self.buffer[8] = 0;
            self.buffer[59] = 255;
            self.buffer[60] = 255;
            self.buffer[61] = 255;
            self.buffer[62] = 255;
            proof {
                assert(self.buffer@ =~= apply_framing_spec(
                    old(self).buffer@,
                    ProtocolVariant::Extended,
                ));
            }
        } else {
            self.buffer[1] = 0;
            self.buffer[8] = 128;
            proof {
                assert(self.buffer@ =~= apply_framing_spec(
                    old(self).buffer@,
                    ProtocolVariant::Legacy,
                ));
            }
        }
    }

    /// Discards the session's view of the device: handle gone, descriptor
    /// dropped. The buffer and variant stay, so a later reconnect can
    /// resend the pending frame.
    pub fn mark_disconnected(&mut self)
        requires
            old(self).wf(),
        ensures
            final(self).wf(),
            !final(self).connected,
            final(self).info is None,
            final(self).is_new_protocol == old(self).is_new_protocol,
            final(self).buffer@ == old(self).buffer@,
            final(self).last_reconnect_ms == old(self).last_reconnect_ms,
    {
        self.connected = false;
        self.info = None;
    }

    /// Whether a device handle is currently open.
    pub fn is_connected(&self) -> (r: bool)
        ensures
            r == self.connected,
    {
        self.connected
    }

    /// The descriptor captured at connect time, if connected.
    pub fn get_info(&self) -> (r: Option<DeviceInfo>)
        ensures
            r is Some <==> self.info is Some,
            r matches Some(i) ==> (self.info matches Some(own) && i@ == own@),
    {
        match &self.info {
            Some(i) => Some(i.clone()),
            None => None,
        }
    }

    /// Encodes the wire payload of the buffer's current contents for the
    /// active variant, recomputing the extended checksum. Returns `None`
    /// when no device is open: such sends are silently dropped.
    pub fn frame(&self) -> (r: Option<Vec<u8>>)
        requires
            self.wf(),
        ensures
            self.connected ==> (r matches Some(f) && f@ == wire_frame_spec(*self)),
            !self.connected ==> r is None,
    {
        if !self.connected {
            return None;
        }
        let n: usize = if self.is_new_protocol {
            REPORT_LEN
        } else {
            LEGACY_WIRE_LEN
        };
        let mut out: Vec<u8> = Vec::new();
        let mut i: usize = 0;
        while i < n
            invariant
                0 <= i <= n,
                n <= self.buffer@.len(),
                out@ == self.buffer@.subrange(0, i as int),
            decreases n - i,
        {
            out.push(self.buffer[i]);
            proof {
                assert(out@ =~= self.buffer@.subrange(0, i + 1));
            }
            i = i + 1;
        }
        if self.is_new_protocol {
            proof {
                assert(out@ =~= self.buffer@);
            }
            write_checksum(&mut out);
        }
        Some(out)
    }

    /// Sets the raw color channels (no correction) and encodes the frame
    /// to send, if a device is open.
    pub fn light_raw(&mut self, r: u8, g: u8, b: u8) -> (frame: Option<Vec<u8>>)
        requires
            old(self).wf(),
        ensures
            final(self).wf(),
            Self::same_but_buffer(*final(self), *old(self)),
            final(self).buffer@ == old(self).buffer@.update(3, r).update(4, g).update(5, b),
            final(self).connected ==> (frame matches Some(f) && f@ == wire_frame_spec(*final(self))),
            !final(self).connected ==> frame is None,
    {
        self.buffer[3] = r;
        self.buffer[4] = g;
        self.buffer[5] = b;
        self.frame()
    }

    /// Sets a solid color, degamma-corrected from perceptual to linear
    /// hardware values, and encodes the frame to send.
    pub fn light(&mut self, r: u8, g: u8, b: u8) -> (frame: Option<Vec<u8>>)
        requires
            old(self).wf(),
        ensures
            final(self).wf(),
            Self::same_but_buffer(*final(self), *old(self)),
            final(self).buffer@ == old(self).buffer@.update(3, degamma_spec(r)).update(
                4,
                degamma_spec(g),
            ).update(5, degamma_spec(b)),
            final(self).connected ==> (frame matches Some(f) && f@ == wire_frame_spec(*final(self))),
            !final(self).connected ==> frame is None,
    {
        let dr = degamma(r);
        let dg = degamma(g);
        let db = degamma(b);
        self.light_raw(dr, dg, db)
    }

    /// Sets the color scaled by the perceived-brightness power law (no
    /// degamma) and encodes the frame to send.
    pub fn light_pct(&mut self, r: u8, g: u8, b: u8, pct: u8) -> (frame: Option<Vec<u8>>)
        requires
            old(self).wf(),
        ensures
            final(self).wf(),
            Self::same_but_buffer(*final(self), *old(self)),
            final(self).buffer@ == old(self).buffer@.update(
                3,
                apply_brightness_spec((r, g, b), pct).0,
            ).update(4, apply_brightness_spec((r, g, b), pct).1).update(
                5,
                apply_brightness_spec((r, g, b), pct).2,
            ),
            final(self).connected ==> (frame matches Some(f) && f@ == wire_frame_spec(*final(self))),
            !final(self).connected ==> frame is None,
    {
        let scaled = apply_brightness((r, g, b), pct);
        self.light_raw(scaled.0, scaled.1, scaled.2)
    }

    /// Blanks the light: a solid black frame.
    pub fn off(&mut self) -> (frame: Option<Vec<u8>>)
        requires
            old(self).wf(),
        ensures
            final(self).wf(),
            Self::same_but_buffer(*final(self), *old(self)),
            final(self).buffer@ == old(self).buffer@.update(3, 0u8).update(4, 0u8).update(5, 0u8),
            final(self).connected ==> (frame matches Some(f) && f@ == wire_frame_spec(*final(self))),
            !final(self).connected ==> frame is None,
    {
        assert(degamma_spec(0) == 0);
        self.light(0, 0, 0)
    }

    /// Records that a write to the open device failed. The session is
    /// marked disconnected either way; the result says whether a single
    /// reconnect attempt is due now, which is the case at most once per
    /// cooldown window. When it is, the attempt is charged to the clock
    /// immediately, so a second failure within the window never triggers
    /// another.
    pub fn handle_write_failure(&mut self, now_ms: u64) -> (retry: bool)
        requires
            old(self).wf(),
        ensures
            final(self).wf(),
            !final(self).connected,
            final(self).info is None,
            final(self).is_new_protocol == old(self).is_new_protocol,
            final(self).buffer@ == old(self).buffer@,
            retry == reconnect_due_spec(old(self).last_reconnect_ms, now_ms),
            final(self).last_reconnect_ms == (if retry {
                now_ms
            } else {
                old(self).last_reconnect_ms
            }),
    {
        self.connected = false;
        self.info = None;
        let due: bool = now_ms >= self.last_reconnect_ms && now_ms - self.last_reconnect_ms
            > RECONNECT_COOLDOWN_MS;
        if due {
            self.last_reconnect_ms = now_ms;
        }
        due
    }
}

/// The reconnect rate limit: once a failed write has triggered an attempt
/// at time `t0`, no further failure within the cooldown window — in
/// particular, any number of failures within the following second —
/// triggers another attempt.
pub proof fn lemma_reconnect_rate_limited(last_ms: u64, t0: u64, t1: u64, t2: u64)
    requires
        reconnect_due_spec(last_ms, t0),
        t0 <= t1 <= t2,
        t2 <= t0 + 1000,
    ensures
        !reconnect_due_spec(t0, t1),
        !reconnect_due_spec(t0, t2),
{
}

} // verus!
