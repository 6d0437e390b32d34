//! Safe, typed access to a device's hardware abstraction layer (HAL).
//!
//! The HAL exposes named hardware modules ("lights", ...), a legacy
//! vibration-pattern engine and a Wi-Fi driver/supplicant control channel,
//! all through a versioned, pointer-based C object model.  This crate holds
//! the verified core of a binding to that layer: the module/device discovery
//! and lifecycle rules, the value translations at the call boundary, the
//! cancellable pattern-execution engine, and the bounds and decoding rules
//! for the supplicant channel.  The native descriptors and call outcomes are
//! represented as plain records, so that every decision the binding makes is
//! stated in a contract and proved; the thin shell that performs the actual
//! C calls hands those records and status codes in and carries the decisions
//! out.

pub mod cstr;
pub mod hw_module;
pub mod lights;
pub mod vibrator;
pub mod wake_lock;
pub mod wifi;

pub use lights::{BrightnessMode, FlashMode, LightKind, LightState, LightsDevice, LightsModule};
pub use vibrator::{PatternGuard, Vibrator};
