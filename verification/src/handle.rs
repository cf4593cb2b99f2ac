//! Opaque engine handles and the engine's integer-coded boolean.
//!
//! A handle is a 32-bit value issued by the engine; it has no meaning of
//! its own and is compared only by raw numeric equality. The owning form
//! is move-only: the raw value can be taken back out exactly once, for the
//! single native release call, and the type system rules out a second
//! release or any use after it.

use vstd::prelude::*;

verus! {

/// A non-owning reference to an engine resource: copyable, never released.
#[derive(Debug, Default, Copy, Clone, PartialEq, Eq, Structural)]
pub struct MsiHandle(pub u32);

impl MsiHandle {
    /// Wraps a raw engine value as a handle.
    pub fn new(raw: u32) -> (h: MsiHandle)
        ensures
            h.0 == raw,
    {
        MsiHandle(raw)
    }

    /// The raw 32-bit value, for handing to a native call.
    pub fn value(self) -> (r: u32)
        ensures
            r == self.0,
    {
        self.0
    }

    /// Takes ownership of the underlying resource.
    pub fn to_owned(self) -> (r: OwnedMsiHandle)
        ensures
            r.handle() == self,
    {
        OwnedMsiHandle { handle: self }
    }
}

/// An owning handle: move-only, so the resource it stands for can be
/// released at most once, by consuming the value with [`Self::release`].
pub struct OwnedMsiHandle {
    handle: MsiHandle,
}

impl OwnedMsiHandle {
    /// The handle this owner stands for.
    pub closed spec fn handle(&self) -> MsiHandle {
        self.handle
    }

    /// Borrows the underlying handle without transferring ownership.
    pub fn borrow(&self) -> (h: MsiHandle)
        ensures
            h == self.handle(),
    {
        self.handle
    }

    /// Consumes the owner and yields the handle for the one release call.
    /// After this, no use of the owner can compile, so the underlying
    /// resource is released at most once and never used afterwards.
    pub fn release(self) -> (h: MsiHandle)
        ensures
            h == self.handle(),
    {
        self.handle
    }
}

/// The engine's integer-coded boolean: zero is false, anything else true.
#[derive(Debug, Default, Copy, Clone, PartialEq, Eq, Structural)]
pub struct Win32Bool(pub i32);

impl Win32Bool {
    /// The truth value this code stands for.
    pub open spec fn truth(self) -> bool {
        self.0 != 0
    }

    /// Decodes the integer code into a boolean.
    pub fn as_bool(self) -> (r: bool)
        ensures
            r == self.truth(),
    {
        self.0 != 0
    }

    /// Logical negation, normalised to the canonical codes 0 and 1.
    pub fn negated(self) -> (r: Win32Bool)
        ensures
            r.truth() == !self.truth(),
            r.0 == 0 || r.0 == 1,
    {
        if self.0 == 0 {
            Win32Bool(1)
        } else {
            Win32Bool(0)
        }
    }

    /// Whether this code stands for the given boolean.
    pub fn eq_bool(self, other: bool) -> (r: bool)
        ensures
            r == (self.truth() == other),
    {
        (self.0 != 0) == other
    }
}

impl From<bool> for Win32Bool {
    /// Encodes a boolean as the canonical integer codes 1 and 0.
    fn from(value: bool) -> (r: Win32Bool) {
        if value {
            Win32Bool(1)
        } else {
            Win32Bool(0)
        }
    }
}

impl vstd::std_specs::convert::FromSpecImpl<bool> for Win32Bool {
    open spec fn obeys_from_spec() -> bool {
        true
    }

    open spec fn from_spec(value: bool) -> Win32Bool {
        if value {
            Win32Bool(1)
        } else {
            Win32Bool(0)
        }
    }
}

} // verus!
