//! Opaque machine-address values that scripts may hold and pass.
//!
//! A handle wraps a raw address as a plain integer. It grants no ownership
//! and no right to dereference: validity of the address is entirely the
//! caller's responsibility. Handles are created from a script-side signed
//! numeric value at marshalling time and read back as the same value, so an
//! address round-trips losslessly through the boundary.

use vstd::prelude::*;

verus! {

/// The largest script-side signed value that names an address: the address
/// space is what a signed 32-bit script numeric can represent.
pub const MAX_SCRIPT_ADDR: i64 = 0x7fff_ffff;

/// A signed script numeric names an address exactly when it is non-negative
/// and within the signed 32-bit range.
pub open spec fn representable_addr(v: i64) -> bool {
    0 <= v <= MAX_SCRIPT_ADDR
}

/// An opaque, untyped machine address. Scripts may hold and return it, but
/// never dereference it through the bridge.
#[derive(Clone, Copy, PartialEq, Eq, Structural, Debug)]
pub struct AddressHandle {
    /// The raw address. Holding it grants nothing: the bridge never
    /// dereferences it, and validity stays the caller's responsibility.
    pub addr: usize,
}

impl AddressHandle {
    /// The raw address this handle carries.
    pub open spec fn spec_addr(&self) -> usize {
        self.addr
    }

    /// Every handle built by the bridge carries an address a signed script
    /// numeric can represent, so it can be handed back without loss.
    pub open spec fn wf(&self) -> bool {
        self.spec_addr() <= MAX_SCRIPT_ADDR as usize
    }

    /// Marshal a script-side signed numeric into an address handle.
    /// Negative values are rejected before the integer-to-address cast;
    /// nothing is truncated.
    pub fn from_signed(v: i64) -> (r: Option<AddressHandle>)
        ensures
            representable_addr(v) <==> r is Some,
            r matches Some(h) ==> h.spec_addr() == v as usize && h.wf(),
    {
        if 0 <= v && v <= MAX_SCRIPT_ADDR {
            Some(AddressHandle { addr: v as usize })
        } else {
            None
        }
    }

    /// Read the handle back as the script-side signed numeric it came from.
    pub fn as_signed(&self) -> (r: i64)
        requires
            self.wf(),
        ensures
            r == self.spec_addr() as i64,
            representable_addr(r),
    {
        self.addr as i64
    }

    /// The raw address, for the single point of native invocation.
    pub fn raw(&self) -> (r: usize)
        ensures
            r == self.spec_addr(),
    {
        self.addr
    }
}

/// Round-trip law: marshalling a representable script value `v` into an
/// address handle and reading it back yields exactly `v` — no precision
/// loss and no sign inversion.
pub proof fn lemma_address_round_trip(v: i64, h: AddressHandle)
    requires
        representable_addr(v),
        h.spec_addr() == v as usize,
    ensures
        h.wf(),
        h.spec_addr() as i64 == v,
{
}

} // verus!
