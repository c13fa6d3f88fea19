//! Control core of a residential thermostat: the runtime state machine, the
//! hysteresis and defrost accounting, the debounced intake of configuration
//! messages, and the text shown to the user.
//!
//! Temperatures are fixed-point integers in thousandths of a degree; times are
//! readings of a monotonic clock in milliseconds.

pub mod backend;
pub mod controller;
pub mod events;
pub mod laws;
pub mod sensor;
pub mod text;
pub mod units;
