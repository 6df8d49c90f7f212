//! Property dispatch for a Sense HAT exposed as ECHONET Lite device objects.
//!
//! The crate decides, for each incoming property request, whether a device
//! object accepts it and which sensor read or display action it needs, and
//! encodes sensor readings into property payloads. Talking to the hardware
//! and to the network is left to the caller.

pub mod codec;
pub mod encoding;
pub mod request;
pub mod adapter;
pub mod air_pressure;
pub mod humidity;
pub mod temperature;
pub mod mono_light;
pub mod node;
