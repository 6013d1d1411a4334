//! The marshalling layer.
//!
//! For a descriptor and the script-supplied arguments of one call, this
//! layer produces the native-typed argument sequence the primitive takes,
//! or fails with an error naming the expected kind, the offending position,
//! and the value found there. A call whose arguments are rejected never
//! reaches the native side: no call plan is produced for it. After the
//! native call, the returned value (if any) is converted back into a
//! script-representable numeric.

use vstd::prelude::*;

use crate::descriptor::{params_of, spec_params, NativeFn, ParamKind};
use crate::handle::{representable_addr, AddressHandle};
use crate::value::{NativeReturn, NativeValue, ScriptValue};

verus! {

/// A script argument could not be coerced to the kind a descriptor expects.
#[derive(Clone, Copy, PartialEq, Eq, Structural, Debug)]
pub struct MarshalError {
    /// The kind the descriptor expects at the offending position.
    pub expected: ParamKind,
    /// The argument position (zero-based) that was rejected.
    pub position: usize,
    /// The script value found there.
    pub got: ScriptValue,
}

impl MarshalError {
    /// A short phrase naming the expected kind, for the message the engine
    /// raises at the call site ("expected a memory address, ...").
    pub fn expected_phrase(&self) -> (r: &'static str)
        ensures
            r@ == spec_kind_phrase(self.expected),
    {
        match self.expected {
            ParamKind::Int => "an integer",
            ParamKind::Unsigned => "an unsigned integer",
            ParamKind::Boolean => "a boolean",
            ParamKind::Address => "a memory address",
        }
    }
}

/// The phrase naming each parameter kind in a marshalling error.
pub open spec fn spec_kind_phrase(k: ParamKind) -> Seq<char> {
    match k {
        ParamKind::Int => "an integer"@,
        ParamKind::Unsigned => "an unsigned integer"@,
        ParamKind::Boolean => "a boolean"@,
        ParamKind::Address => "a memory address"@,
    }
}

/// Whether a script value can be coerced to a parameter kind.
///
/// Integral numerics coerce exactly when they fit the target range;
/// fractional and out-of-range values are a failure, never truncated.
/// The address path additionally rejects negative values before the
/// integer-to-address cast.
pub open spec fn coercible(k: ParamKind, v: ScriptValue) -> bool {
    match k {
        ParamKind::Int => v matches ScriptValue::Int(n) && i32::MIN <= n <= i32::MAX,
        ParamKind::Unsigned => v matches ScriptValue::Int(n) && 0 <= n <= u32::MAX,
        ParamKind::Boolean => v matches ScriptValue::Bool(_),
        ParamKind::Address => v matches ScriptValue::Int(n) && representable_addr(n),
    }
}

/// The native value a coercible script value maps to.
pub open spec fn spec_coerce(k: ParamKind, v: ScriptValue) -> NativeValue
    recommends
        coercible(k, v),
{
    match (k, v) {
        (ParamKind::Int, ScriptValue::Int(n)) => NativeValue::Int(n as i32),
        (ParamKind::Unsigned, ScriptValue::Int(n)) => NativeValue::Unsigned(n as u32),
        (ParamKind::Boolean, ScriptValue::Bool(b)) => NativeValue::Bool(b),
        (ParamKind::Address, ScriptValue::Int(n)) => NativeValue::Address(
            AddressHandle { addr: n as usize },
        ),
        _ => NativeValue::Bool(false),
    }
}

/// The script value standing at position `i` of an argument list: a missing
/// trailing argument is the engine's `undefined`.
pub open spec fn arg_at(args: Seq<ScriptValue>, i: int) -> ScriptValue {
    if 0 <= i < args.len() {
        args[i]
    } else {
        ScriptValue::Undefined
    }
}

/// Whether every parameter of a kind list can be coerced from the
/// corresponding argument.
pub open spec fn all_coercible(params: Seq<ParamKind>, args: Seq<ScriptValue>) -> bool {
    forall|i: int| 0 <= i < params.len() ==> coercible(params[i], arg_at(args, i))
}

/// Coerce one script argument to one expected kind, or report the failure.
pub fn coerce_arg(k: ParamKind, v: ScriptValue, position: usize) -> (r: Result<
    NativeValue,
    MarshalError,
>)
    ensures
        coercible(k, v) ==> (r matches Ok(n) && n == spec_coerce(k, v)),
        !coercible(k, v) ==> r == Err::<NativeValue, MarshalError>(
            MarshalError { expected: k, position, got: v },
        ),
{
    let reject = MarshalError { expected: k, position, got: v };
    match k {
        ParamKind::Int => match v {
            ScriptValue::Int(n) if i32::MIN as i64 <= n && n <= i32::MAX as i64 => Ok(
                NativeValue::Int(n as i32),
            ),
            _ => Err(reject),
        },
        ParamKind::Unsigned => match v {
            ScriptValue::Int(n) if 0 <= n && n <= u32::MAX as i64 => Ok(
                NativeValue::Unsigned(n as u32),
            ),
            _ => Err(reject),
        },
        ParamKind::Boolean => match v {
            ScriptValue::Bool(b) => Ok(NativeValue::Bool(b)),
            _ => Err(reject),
        },
        ParamKind::Address => match v {
            ScriptValue::Int(n) => match AddressHandle::from_signed(n) {
                Some(h) => Ok(NativeValue::Address(h)),
                _ => Err(reject),
            },
            _ => Err(reject),
        },
    }
}

/// Marshal a whole argument list against a parameter kind list.
///
/// On success the result has exactly one native value per parameter, each
/// the coercion of the argument at its position (missing trailing arguments
/// count as `undefined` and therefore fail). On failure the error names the
/// first position whose argument does not coerce, the kind expected there,
/// and the value found; every earlier argument did coerce.
pub fn marshal_args(params: &Vec<ParamKind>, args: &Vec<ScriptValue>) -> (r: Result<
    Vec<NativeValue>,
    MarshalError,
>)
    ensures
        all_coercible(params@, args@) ==> (r matches Ok(n) && n@.len() == params@.len()
            && (forall|i: int|
            0 <= i < params@.len() ==> n@[i] == spec_coerce(params@[i], arg_at(args@, i)))),
        !all_coercible(params@, args@) ==> (r matches Err(e) && 0 <= e.position < params@.len()
            && e.expected == params@[e.position as int] && e.got == arg_at(
            args@,
            e.position as int,
        ) && !coercible(e.expected, e.got) && (forall|i: int|
            0 <= i < e.position ==> coercible(params@[i], arg_at(args@, i)))),
{
    let mut natives: Vec<NativeValue> = Vec::new();
    let mut i: usize = 0;
    while i < params.len()
        invariant
            0 <= i <= params@.len(),
            natives@.len() == i,
            forall|j: int| 0 <= j < i ==> coercible(params@[j], arg_at(args@, j)),
            forall|j: int| 0 <= j < i ==> natives@[j] == spec_coerce(params@[j], arg_at(args@, j)),
        decreases params@.len() - i,
    {
        let v = if i < args.len() {
            args[i]
        } else {
            ScriptValue::Undefined
        };
        match coerce_arg(params[i], v, i) {
            Ok(n) => natives.push(n),
            Err(e) => {
                return Err(e);
            },
        }
        i += 1;
    }
    Ok(natives)
}

/// A fully marshalled call, ready for the single point of native invocation.
pub struct NativeCall {
    /// The table entry to invoke.
    pub target: NativeFn,
    /// Its native-typed arguments, one per declared parameter, in order.
    pub args: Vec<NativeValue>,
}

/// Plan one script call of a catalogued primitive: marshal the arguments
/// against the primitive's declared parameter kinds. A rejected call
/// produces no plan, so the native side is never reached with partially
/// coerced arguments.
pub fn plan_call(f: NativeFn, args: &Vec<ScriptValue>) -> (r: Result<NativeCall, MarshalError>)
    ensures
        all_coercible(spec_params(f), args@) ==> (r matches Ok(c) && c.target == f
            && c.args@.len() == spec_params(f).len() && (forall|i: int|
            0 <= i < spec_params(f).len() ==> c.args@[i] == spec_coerce(
                spec_params(f)[i],
                arg_at(args@, i),
            ))),
        !all_coercible(spec_params(f), args@) ==> (r matches Err(e) && 0 <= e.position
            < spec_params(f).len() && e.expected == spec_params(f)[e.position as int] && e.got
            == arg_at(args@, e.position as int) && !coercible(e.expected, e.got)),
{
    let params = params_of(f);
    match marshal_args(&params, args) {
        Ok(natives) => Ok(NativeCall { target: f, args: natives }),
        Err(e) => Err(e),
    }
}

/// The script value a native return converts back to: `Unit` yields no
/// value, every numeric (signed, unsigned, or address) yields the exact
/// integer it holds.
pub open spec fn spec_ret_to_script(r: NativeReturn) -> Option<ScriptValue> {
    match r {
        NativeReturn::Unit => None,
        NativeReturn::Int(n) => Some(ScriptValue::Int(n as i64)),
        NativeReturn::Unsigned(u) => Some(ScriptValue::Int(u as i64)),
        NativeReturn::Address(a) => Some(ScriptValue::Int(a as i64)),
    }
}

/// Convert a native return value back into a script-representable value.
/// Every 32-bit numeric is exactly representable, so this never fails.
pub fn ret_to_script(r: &NativeReturn) -> (out: Option<ScriptValue>)
    ensures
        out == spec_ret_to_script(*r),
{
    match r {
        NativeReturn::Unit => None,
        NativeReturn::Int(n) => Some(ScriptValue::Int(*n as i64)),
        NativeReturn::Unsigned(u) => Some(ScriptValue::Int(*u as i64)),
        NativeReturn::Address(a) => Some(ScriptValue::Int(*a as i64)),
    }
}

/// Kind-mismatch law: one argument that does not coerce to its declared
/// kind poisons the whole call — marshalling cannot succeed, so the plan
/// that would reach the native side is never produced.
pub proof fn lemma_kind_mismatch(params: Seq<ParamKind>, args: Seq<ScriptValue>, i: int)
    requires
        0 <= i < params.len(),
        !coercible(params[i], arg_at(args, i)),
    ensures
        !all_coercible(params, args),
{
}

} // verus!
