//! The values that cross the script-to-native boundary.
//!
//! Script-side values are modelled by what the bridge can observe of them:
//! an integral numeric (held exactly as a signed 64-bit value), a boolean,
//! a numeric with a fractional part, the engine's `undefined`, or anything
//! else. Native-side values are the typed arguments the device primitives
//! take and the single value one of them may return.

use vstd::prelude::*;

use crate::handle::AddressHandle;

verus! {

/// A script-engine value, as the bridge observes it at a call site.
#[derive(Clone, Copy, PartialEq, Eq, Structural, Debug)]
pub enum ScriptValue {
    /// A numeric whose value is an exact integer.
    Int(i64),
    /// A boolean.
    Bool(bool),
    /// A numeric with a fractional part; its exact value never matters,
    /// since no parameter kind accepts it.
    NonIntegral,
    /// The engine's `undefined`, also what stands for a missing argument.
    Undefined,
    /// Any other script value (string, object, function, ...).
    Other,
}

/// A native-typed argument produced by marshalling.
#[derive(Clone, Copy, PartialEq, Eq, Structural, Debug)]
pub enum NativeValue {
    Int(i32),
    Unsigned(u32),
    Bool(bool),
    Address(AddressHandle),
}

/// What a native primitive hands back: nothing, a signed or unsigned
/// 32-bit numeric, or a raw 32-bit machine address.
#[derive(Clone, Copy, PartialEq, Eq, Structural, Debug)]
pub enum NativeReturn {
    Unit,
    Int(i32),
    Unsigned(u32),
    Address(u32),
}

} // verus!
