//! A verified model of a script-to-native bridge for an embedded device.
//!
//! A dynamic scripting engine runs on a freestanding microcontroller and
//! calls a fixed catalogue of native device primitives. This crate holds the
//! logic of that bridge: the opaque address handles scripts may pass across
//! the boundary, the descriptor table naming every exposed primitive, the
//! marshalling rules that coerce script values into native arguments, the
//! module registry through which scripts import the bridge, and the runtime
//! shim layer that stands in for the missing C runtime.

pub mod descriptor;
pub mod handle;
pub mod marshal;
pub mod registry;
pub mod shim;
pub mod value;
