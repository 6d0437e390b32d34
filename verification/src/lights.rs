//! The lights capability: typed light parameters, their translation to the
//! native wire layout, and the module/device façade that carries them to
//! the hardware.
//!
//! A [`LightState`] is a pure value bundle (RGB color, flash pattern,
//! brightness policy).  It is translated to the native layout — an
//! alpha-prefixed 32-bit color and signed 32-bit flash/brightness fields —
//! at the call boundary only; the native side never retains it beyond the
//! call.  A [`LightsDevice`] owns one opened device record and guarantees
//! the close discipline: the device's close operation is issued exactly
//! once over the handle's whole lifetime.

use vstd::prelude::*;
use vstd::string::StringSliceAdditionalSpecFns;
use vstd::utf8::encode_utf8;

use crate::cstr::{bytes_eq, cstr_bytes};
use crate::hw_module::{find_module, hw_device_t, hw_module_t, DeviceEntryView, ModuleRegistry};

verus! {

/// The identifier under which the service locator knows the lights module,
/// as the null-terminated byte string the native call takes.
pub open spec fn lights_module_id() -> Seq<u8> {
    encode_utf8("lights"@) + seq![0u8]
}

/// The identifier of the lights hardware module.
pub fn lights_hardware_module_id() -> (r: Vec<u8>)
    ensures
        r@ == lights_module_id(),
{
    cstr_bytes("lights")
}

/// The parameters of one light in the native wire layout.
///
/// Not every light supports every parameter; the native side does its best
/// with what it is handed and never retains the record beyond the call.
#[allow(non_camel_case_types)]
#[derive(Clone, Copy, Debug, PartialEq, Eq, Structural)]
pub struct light_state_t {
    /// The color of the LED in ARGB; callers set the high byte to 0xFF.
    pub color: u32,
    /// Flash mode, as its native code.
    pub flash_mode: i32,
    pub flash_on_ms: i32,
    pub flash_off_ms: i32,
    /// Policy used to manage the light's brightness, as its native code.
    pub brightness_mode: i32,
}

/// A lights device descriptor: the common device head followed by the one
/// capability operation, set-light.  `set_light` records whether the
/// descriptor carries that operation, and `set_status` the status the
/// native operation returns on this device (0 for success).
#[allow(non_camel_case_types)]
#[derive(Clone, Copy, Debug, PartialEq, Eq, Structural)]
pub struct light_device_t {
    pub common: hw_device_t,
    pub set_light: bool,
    pub set_status: i32,
}

impl Default for light_device_t {
    /// The staging value a device record holds before the open call
    /// populates it.
    fn default() -> (r: Self)
        ensures
            r == (light_device_t {
                common: hw_device_t { tag: 0, version: 0, has_close: false },
                set_light: false,
                set_status: 0,
            }),
    {
        light_device_t { common: Default::default(), set_light: false, set_status: 0 }
    }
}

/// The closed set of named light targets.  A kind only selects which
/// device to open; it carries no runtime state.
#[derive(Clone, Copy, Debug, PartialEq, Eq, Structural)]
pub enum LightKind {
    Backlight,
    Keyboard,
    Buttons,
    Battery,
    Notifications,
    Attention,
    Bluetooth,
    Wifi,
}

/// The canonical ASCII name of a light kind.
pub open spec fn light_kind_str(k: LightKind) -> Seq<char> {
    match k {
        LightKind::Backlight => "backlight"@,
        LightKind::Keyboard => "keyboard"@,
        LightKind::Buttons => "buttons"@,
        LightKind::Battery => "battery"@,
        LightKind::Notifications => "notifications"@,
        LightKind::Attention => "attention"@,
        LightKind::Bluetooth => "bluetooth"@,
        LightKind::Wifi => "wifi"@,
    }
}

impl LightKind {
    /// The kind's canonical ASCII name with a terminating null byte,
    /// suitable for opening a light device by name.
    pub fn to_cstr(&self) -> (r: Vec<u8>)
        ensures
            r@ == encode_utf8(light_kind_str(*self)) + seq![0u8],
    {
        let name: &str = match self {
            LightKind::Backlight => "backlight",
            LightKind::Keyboard => "keyboard",
            LightKind::Buttons => "buttons",
            LightKind::Battery => "battery",
            LightKind::Notifications => "notifications",
            LightKind::Attention => "attention",
            LightKind::Bluetooth => "bluetooth",
            LightKind::Wifi => "wifi",
        };
        assert(name@ == light_kind_str(*self));
        cstr_bytes(name)
    }
}

/// How a light flashes.
#[derive(Clone, Copy, Debug, PartialEq, Eq, Structural)]
pub enum FlashMode {
    NoFlash,
    Timed,
    Hardware,
}

/// The native code of a flash mode.
pub open spec fn flash_mode_code(m: FlashMode) -> i32 {
    match m {
        FlashMode::NoFlash => 0,
        FlashMode::Timed => 1,
        FlashMode::Hardware => 2,
    }
}

/// Policy managing a light's brightness.
#[derive(Clone, Copy, Debug, PartialEq, Eq, Structural)]
pub enum BrightnessMode {
    User,
    Sensor,
}

/// The native code of a brightness policy.
pub open spec fn brightness_mode_code(m: BrightnessMode) -> i32 {
    match m {
        BrightnessMode::User => 0,
        BrightnessMode::Sensor => 1,
    }
}

/// Bundle of parameters used to set a light value and pattern.
#[derive(Clone, Copy, Debug)]
pub struct LightState {
    /// RGB color.
    pub color: (u8, u8, u8),
    pub flash_mode: FlashMode,
    pub flash_on_ms: i32,
    pub flash_off_ms: i32,
    pub brightness_mode: BrightnessMode,
}

/// The black, non-flashing, user-brightness value.
pub open spec fn default_light_state() -> LightState {
    LightState {
        color: (0u8, 0u8, 0u8),
        flash_mode: FlashMode::NoFlash,
        flash_on_ms: 0,
        flash_off_ms: 0,
        brightness_mode: BrightnessMode::User,
    }
}

impl Default for LightState {
    /// Default constructor, a black non-blinking value.
    fn default() -> (r: Self)
        ensures
            r == default_light_state(),
    {
        LightState {
            color: (0, 0, 0),
            flash_mode: FlashMode::NoFlash,
            flash_on_ms: 0,
            flash_off_ms: 0,
            brightness_mode: BrightnessMode::User,
        }
    }
}

/// The alpha-prefixed 32-bit native color of an RGB triple:
/// `(0xFF << 24) | (r << 16) | (g << 8) | b`.
pub open spec fn native_color(c: (u8, u8, u8)) -> u32 {
    (0xFFu32 << 24) | ((c.0 as u32) << 16) | ((c.1 as u32) << 8) | (c.2 as u32)
}

/// The encoding places whole bytes: a full 0xFF alpha byte on top, then
/// the red, green and blue bytes — no component ever disturbs another.
pub proof fn lemma_native_color_bytes(c: (u8, u8, u8))
    ensures
        native_color(c) == 0xFF000000u32 + (c.0 as u32) * 0x10000 + (c.1 as u32) * 0x100 + (
        c.2 as u32),
{
    let r = c.0;
    let g = c.1;
    let b = c.2;
    assert((0xFFu32 << 24) | ((r as u32) << 16) | ((g as u32) << 8) | (b as u32) == 0xFF000000u32
        + (r as u32) * 0x10000 + (g as u32) * 0x100 + (b as u32)) by (bit_vector);
}

/// The native wire layout of a [`LightState`].
pub open spec fn native_of(s: LightState) -> light_state_t {
    light_state_t {
        color: native_color(s.color),
        flash_mode: flash_mode_code(s.flash_mode),
        flash_on_ms: s.flash_on_ms,
        flash_off_ms: s.flash_off_ms,
        brightness_mode: brightness_mode_code(s.brightness_mode),
    }
}

impl LightState {
    /// Translates the bundle to the native wire layout.
    pub fn as_native(&self) -> (r: light_state_t)
        ensures
            r == native_of(*self),
    {
        light_state_t {
            color: (0xFFu32 << 24) | ((self.color.0 as u32) << 16) | ((self.color.1 as u32) << 8)
                | (self.color.2 as u32),
            flash_mode: match self.flash_mode {
                FlashMode::NoFlash => 0,
                FlashMode::Timed => 1,
                FlashMode::Hardware => 2,
            },
            flash_on_ms: self.flash_on_ms,
            flash_off_ms: self.flash_off_ms,
            brightness_mode: match self.brightness_mode {
                BrightnessMode::User => 0,
                BrightnessMode::Sensor => 1,
            },
        }
    }
}

/// What one set call does: when the descriptor carries the set-light
/// operation, the native side receives exactly the translated state and
/// success is its zero status; when it does not, nothing is sent and the
/// call reports failure.  Nothing else about the handle changes, and no
/// failed call is retried.
pub open spec fn set_outcome(
    pre: LightsDevice,
    post: LightsDevice,
    state: LightState,
    r: bool,
) -> bool {
    &&& post.native() == pre.native()
    &&& post.is_closed() == pre.is_closed()
    &&& post.close_count() == pre.close_count()
    &&& if pre.native().set_light {
        post.requests() == pre.requests().push(native_of(state)) && r == (pre.native().set_status
            == 0)
    } else {
        post.requests() == pre.requests() && r == false
    }
}

/// A handle to one opened light device.
///
/// The handle exclusively owns its device record.  Its close discipline is
/// the critical invariant: the device's close operation runs exactly once
/// over the handle's lifetime — [`LightsDevice::close`] issues it on the
/// first call and never again, whatever the caller does.
#[derive(Debug)]
pub struct LightsDevice {
    device: light_device_t,
    closed: bool,
    close_calls: u64,
    requests: Vec<light_state_t>,
}

impl LightsDevice {
    /// The device record the handle owns.
    pub closed spec fn native(self) -> light_device_t {
        self.device
    }

    /// Whether the handle has been closed.
    pub closed spec fn is_closed(self) -> bool {
        self.closed
    }

    /// How many times the device's close operation has run.
    pub closed spec fn close_count(self) -> u64 {
        self.close_calls
    }

    /// The states the native set-light operation has received, oldest
    /// first.
    pub closed spec fn requests(self) -> Seq<light_state_t> {
        self.requests@
    }

    /// The close discipline: the close operation has run exactly once when
    /// the handle is closed and its descriptor carries one, and never
    /// otherwise.
    pub open spec fn wf(self) -> bool {
        self.close_count() == if self.is_closed() && self.native().common.has_close {
            1u64
        } else {
            0u64
        }
    }

    /// Promotes a device record that the native open call populated and
    /// reported success for into a live, owned handle.
    pub fn new(device: light_device_t) -> (d: LightsDevice)
        ensures
            d.wf(),
            d.native() == device,
            !d.is_closed(),
            d.close_count() == 0,
            d.requests() == Seq::<light_state_t>::empty(),
    {
        let d = LightsDevice { device, closed: false, close_calls: 0, requests: Vec::new() };
        assert(d.requests@ =~= Seq::<light_state_t>::empty());
        d
    }

    /// Sets a display color and blinking pattern for this light.
    /// Returns true if successful; a failed native call is reported as
    /// false with no further diagnostic and is never retried.
    pub fn set(&mut self, state: LightState) -> (r: bool)
        requires
            old(self).wf(),
            !old(self).is_closed(),
        ensures
            final(self).wf(),
            set_outcome(*old(self), *final(self), state, r),
    {
        if self.device.set_light {
            let native = state.as_native();
            self.requests.push(native);
            self.device.set_status == 0
        } else {
            false
        }
    }

    /// Turns this light off.  Defined as [`LightsDevice::set`] with the
    /// default (black, non-flashing, user-brightness) state — it uses no
    /// separate native code path.  Returns true if successful.
    pub fn off(&mut self) -> (r: bool)
        requires
            old(self).wf(),
            !old(self).is_closed(),
        ensures
            final(self).wf(),
            set_outcome(*old(self), *final(self), default_light_state(), r),
    {
        self.set(LightState::default())
    }

    /// Closes the handle.  The first call issues the device's close
    /// operation (when the descriptor carries one); every later call does
    /// nothing, so the close operation runs exactly once over the handle's
    /// lifetime.  Returns whether this call issued it.
    pub fn close(&mut self) -> (issued: bool)
        requires
            old(self).wf(),
        ensures
            final(self).wf(),
            final(self).is_closed(),
            final(self).native() == old(self).native(),
            final(self).requests() == old(self).requests(),
            issued == (!old(self).is_closed() && old(self).native().common.has_close),
            final(self).close_count() == if old(self).native().common.has_close {
                1u64
            } else {
                0u64
            },
    {
        if self.closed {
            return false;
        }
        self.closed = true;
        if self.device.common.has_close {
            self.close_calls = 1;
            true
        } else {
            false
        }
    }

    /// The close discipline as a law: however a well-formed handle got
    /// where it is — fresh, used, closed early or closed repeatedly — its
    /// device's close operation has run exactly once if the handle is
    /// closed and the descriptor carries the operation, and has never run
    /// while the handle is still open.
    pub proof fn lemma_close_exactly_once(d: LightsDevice)
        requires
            d.wf(),
        ensures
            d.is_closed() && d.native().common.has_close ==> d.close_count() == 1,
            !d.is_closed() ==> d.close_count() == 0,
    {
    }

    /// The states the native set-light operation has received so far.
    pub fn request_log(&self) -> (r: &Vec<light_state_t>)
        ensures
            r@ == self.requests(),
    {
        &self.requests
    }

    /// How many times the device's close operation has run.
    pub fn native_close_calls(&self) -> (r: u64)
        ensures
            r == self.close_count(),
    {
        self.close_calls
    }
}

/// The first device record of a module's open table whose kind matches.
pub open spec fn find_device(table: Seq<DeviceEntryView>, kind: Seq<u8>) -> Option<light_device_t>
    decreases table.len(),
{
    if table.len() == 0 {
        Option::None
    } else if table[0].kind == kind {
        Option::Some(table[0].device)
    } else {
        find_device(table.subrange(1, table.len() as int), kind)
    }
}

/// The lights module: provides access to the light devices.
#[derive(Debug)]
pub struct LightsModule {
    pub module: hw_module_t,
}

impl LightsModule {
    /// Resolves the lights module from the service locator, or returns
    /// `None` when this device does not support lights at all.
    pub fn new(registry: &ModuleRegistry) -> (r: Option<LightsModule>)
        ensures
            r is Some <==> find_module(registry@, lights_module_id()) is Some,
            r matches Some(m) ==> m.module@ == find_module(registry@, lights_module_id()).unwrap(),
    {
        match registry.resolve(lights_hardware_module_id().as_slice()) {
            Option::Some(module) => Option::Some(LightsModule { module }),
            Option::None => Option::None,
        }
    }

    /// Opens the specified light device, or returns `None` when this
    /// particular light is not supported: either the module reports no
    /// method table, or its open operation does not accept the kind's
    /// name.  On success the returned handle is exclusively owned by the
    /// caller; repeated opens each yield an independently-owned handle.
    pub fn get_device(&self, light: LightKind) -> (r: Option<LightsDevice>)
        ensures
            r is Some <==> (self.module@.methods is Some && find_device(
                self.module@.methods.unwrap(),
                encode_utf8(light_kind_str(light)) + seq![0u8],
            ) is Some),
            r matches Some(d) ==> {
                &&& d.wf()
                &&& !d.is_closed()
                &&& d.close_count() == 0
                &&& d.requests() == Seq::<light_state_t>::empty()
                &&& d.native() == find_device(
                    self.module@.methods.unwrap(),
                    encode_utf8(light_kind_str(light)) + seq![0u8],
                ).unwrap()
            },
    {
        let kind = light.to_cstr();
        match &self.module.methods {
            Option::None => Option::None,
            Option::Some(methods) => {
                let ghost table = methods@;
                let n: usize = methods.open_table.len();
                assert(table.subrange(0, n as int) =~= table);
                assert(self.module@.methods == Option::Some(table));
                let mut i: usize = 0;
                while i < n
                    invariant
                        n == methods.open_table@.len(),
                        0 <= i <= n,
                        table == methods@,
                        table.len() == n,
                        self.module@.methods == Option::Some(table),
                        kind@ == encode_utf8(light_kind_str(light)) + seq![0u8],
                        find_device(table, kind@) == find_device(
                            table.subrange(i as int, n as int),
                            kind@,
                        ),
                    decreases n - i,
                {
                    let ghost rest = table.subrange(i as int, n as int);
                    assert(rest[0] == table[i as int]);
                    if bytes_eq(methods.open_table[i].kind.as_slice(), kind.as_slice()) {
                        proof {
                            assert(table[i as int] == methods.open_table@[i as int]@);
                            assert(rest[0].kind == kind@);
                            assert(find_device(table, kind@) == Option::Some(rest[0].device));
                        }
                        return Option::Some(LightsDevice::new(methods.open_table[i].device));
                    }
                    assert(rest.subrange(1, rest.len() as int) =~= table.subrange(
                        i + 1,
                        n as int,
                    ));
                    i += 1;
                }
                assert(table.subrange(n as int, n as int) =~= Seq::<DeviceEntryView>::empty());
                Option::None
            },
        }
    }
}

} // verus!
