//! Typed decoding of record fields.
//!
//! A record is an engine-owned set of ordered fields (index 0 is reserved
//! for a template string) where each field is dynamically text, integer
//! or null. The engine hands the raw readings out through native calls;
//! the functions here decode them. A field's nullness and its
//! sentinel-valued integer reading are independent facts: each is decoded
//! from its own engine answer, and neither consults the other.

use vstd::prelude::*;
use crate::handle::{OwnedMsiHandle, MsiHandle, Win32Bool};

verus! {

/// The sentinel bit pattern the engine stores for "no integer here": the
/// minimum representable 32-bit signed integer.
pub const MSI_NULL_INTEGER: i32 = -0x8000_0000;

/// A collection of typed fields behind one owned engine handle.
pub struct Record {
    handle: OwnedMsiHandle,
}

impl Record {
    /// The handle the record reads through.
    pub closed spec fn spec_handle(&self) -> MsiHandle {
        self.handle.handle()
    }

    /// Wraps an owned handle as a record.
    pub fn new(handle: OwnedMsiHandle) -> (r: Record)
        ensures
            r.spec_handle() == handle.handle(),
    {
        Record { handle }
    }

    /// The handle value, for issuing a native read against this record.
    pub fn handle(&self) -> (h: MsiHandle)
        ensures
            h == self.spec_handle(),
    {
        self.handle.borrow()
    }

    /// Consumes the record and yields its owner for the one release call.
    pub fn into_handle(self) -> (h: OwnedMsiHandle)
        ensures
            h.handle() == self.spec_handle(),
    {
        self.handle
    }

    /// Decodes a raw integer field reading: the sentinel pattern — and
    /// only the sentinel pattern — means absence; every other value,
    /// zero and negatives included, is the value itself. The raw
    /// sentinel is never re-exposed as a number.
    pub fn integer_data(raw: i32) -> (r: Option<i32>)
        ensures
            r is None <==> raw == MSI_NULL_INTEGER,
            raw != MSI_NULL_INTEGER ==> r == Some(raw),
    {
        if raw == MSI_NULL_INTEGER {
            None
        } else {
            Some(raw)
        }
    }

    /// Decodes the engine's nullness answer for a field. This reading is
    /// independent of the field's integer reading: a null field may still
    /// hold a stale sentinel-valued integer, and this check alone decides
    /// nullness.
    pub fn is_null(raw: Win32Bool) -> (r: bool)
        ensures
            r == raw.truth(),
    {
        raw.as_bool()
    }

    /// What [`Record::is_null`] returns, as a spec-level fact.
    pub open spec fn is_null_spec(raw: Win32Bool) -> bool {
        raw.truth()
    }

    /// Whether [`Record::integer_data`] reports absence, as a spec-level
    /// fact.
    pub open spec fn integer_absent_spec(raw: i32) -> bool {
        raw == MSI_NULL_INTEGER
    }
}

/// Law: nullness and integer absence are independent. Whatever integer
/// the field holds — the stale sentinel included — a field whose
/// nullness reading is set reports null, and the integer decoding looks
/// only at its own raw value.
pub proof fn lemma_null_and_integer_independent(null_raw: Win32Bool, int_raw: i32)
    ensures
        null_raw.truth() ==> Record::is_null_spec(null_raw),
        int_raw == MSI_NULL_INTEGER ==> Record::integer_absent_spec(int_raw),
        Record::is_null_spec(null_raw) == null_raw.truth(),
        Record::integer_absent_spec(int_raw) == (int_raw == MSI_NULL_INTEGER),
{
}

} // verus!
