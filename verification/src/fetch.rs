//! The two-call growable-buffer string retrieval protocol.
//!
//! Two unrelated engine entry points (record field text and record
//! template formatting) share one idiom: a first call with a
//! zero-capacity buffer must answer "more data" and report the required
//! character count; the caller then allocates that count plus one for the
//! terminator and calls again, and the second call reports the *actual*
//! final length, which may be smaller than the first report. The result
//! is exactly the buffer's first `final_len` bytes, decoded as UTF-8.
//!
//! The native calls themselves are issued by the caller; the functions
//! here decide, from each call's raw status and output, what to do next.

use vstd::prelude::*;
use vstd::utf8::{decode_utf8, valid_utf8};
use crate::Error;

verus! {

/// The engine's status code for success.
pub const ERROR_SUCCESS: u32 = 0;

/// The engine's status code for "the buffer was too small; more data".
pub const ERROR_MORE_DATA: u32 = 234;

/// What the first, zero-capacity call demands of the second: a buffer of
/// the reported character count plus one for the terminator.
pub open spec fn spec_required_capacity(reported_len: u32) -> u64 {
    (reported_len + 1) as u64
}

/// Decides the outcome of the first, zero-capacity retrieval call: only a
/// "more data" status continues the protocol, and then the second call's
/// buffer holds the reported length plus one; any other status — success
/// included — is that status's engine error.
pub fn plan_buffer(status: u32, reported_len: u32) -> (r: Result<u64, Error>)
    ensures
        status == ERROR_MORE_DATA ==> r == Ok::<u64, Error>(spec_required_capacity(reported_len)),
        status != ERROR_MORE_DATA ==> r == Err::<u64, Error>(Error::EngineCode(status)),
{
    if status == ERROR_MORE_DATA {
        Ok(reported_len as u64 + 1)
    } else {
        Err(Error::EngineCode(status))
    }
}

/// The bytes the second call's report keeps: the buffer's first
/// `final_len` bytes. A report beyond the buffer keeps it whole.
pub open spec fn spec_kept_bytes(buffer: Seq<u8>, final_len: u32) -> Seq<u8> {
    if final_len <= buffer.len() {
        buffer.take(final_len as int)
    } else {
        buffer
    }
}

/// The text the whole protocol yields once the second call has returned:
/// an engine error for a non-success status, the kept bytes decoded as
/// UTF-8 on success, and a distinct decode error when they are not UTF-8.
pub open spec fn spec_fetch_text(status: u32, buffer: Seq<u8>, final_len: u32) -> Result<
    Seq<char>,
    Error,
> {
    if status != ERROR_SUCCESS {
        Err(Error::EngineCode(status))
    } else if valid_utf8(spec_kept_bytes(buffer, final_len)) {
        Ok(decode_utf8(spec_kept_bytes(buffer, final_len)))
    } else {
        Err(Error::TextDecodeFailure)
    }
}

/// Decides the outcome of the second retrieval call from its raw status,
/// the buffer the engine filled, and the final length it reported. Only
/// the second call's own reported length bounds the text; the first
/// call's report plays no part.
pub fn finish_fetch(status: u32, buffer: Vec<u8>, final_len: u32) -> (r: Result<String, Error>)
    ensures
        match r {
            Ok(s) => spec_fetch_text(status, buffer@, final_len) matches Ok(t) && s@ == t,
            Err(e) => spec_fetch_text(status, buffer@, final_len) == Err::<Seq<char>, Error>(e),
        },
{
    if status != ERROR_SUCCESS {
        return Err(Error::EngineCode(status));
    }
    let mut kept = buffer;
    if final_len as usize <= kept.len() {
        kept.truncate(final_len as usize);
    }
    match bytes_to_string(kept) {
        Some(s) => Ok(s),
        None => Err(Error::TextDecodeFailure),
    }
}

/// Relies on `String::from_utf8`: it succeeds exactly when the bytes are
/// valid UTF-8, and then returns the characters they encode.
#[verifier::external_body]
fn bytes_to_string(bytes: Vec<u8>) -> (r: Option<String>)
    ensures
        r is Some <==> valid_utf8(bytes@),
        r matches Some(s) ==> s@ == decode_utf8(bytes@),
{
    String::from_utf8(bytes).ok()
}

/// Substitutes the fixed placeholder for a failed template formatting:
/// the display path is contractually infallible, so an error becomes the
/// placeholder text instead of propagating.
pub fn display_text(fetched: Result<String, Error>) -> (r: String)
    ensures
        fetched matches Ok(s) ==> r@ == s@,
        fetched is Err ==> r@ == "(record)"@,
{
    match fetched {
        Ok(s) => s,
        Err(_) => "(record)".to_owned(),
    }
}

/// Law: the retrieval protocol truncates to the second call's own
/// reported length, not the first call's. For a field whose text encodes
/// to `L` bytes, any first report of at least `L` characters leads to a
/// buffer holding those bytes (and whatever padding follows); when the
/// second call then succeeds and reports `L` itself, the protocol yields
/// exactly the original text — the first report `first_len` appears
/// nowhere in the result.
pub proof fn lemma_fetch_round_trip(text: Seq<char>, padding: Seq<u8>, first_len: u32)
    requires
        vstd::utf8::encode_utf8(text).len() <= first_len,
        vstd::utf8::encode_utf8(text).len() + padding.len() == spec_required_capacity(first_len),
    ensures
        spec_fetch_text(
            ERROR_SUCCESS,
            vstd::utf8::encode_utf8(text) + padding,
            vstd::utf8::encode_utf8(text).len() as u32,
        ) == Ok::<Seq<char>, Error>(text),
{
    let encoded = vstd::utf8::encode_utf8(text);
    let buffer = encoded + padding;
    let final_len = encoded.len() as u32;
    assert(spec_kept_bytes(buffer, final_len) =~= encoded);
    vstd::utf8::encode_utf8_valid_utf8(text);
    vstd::utf8::encode_utf8_decode_utf8(text);
}

/// Law: whatever the engine reported on the first call, a successful
/// second call that reports `final_len` yields the decoding of exactly
/// the buffer's first `final_len` bytes.
pub proof fn lemma_fetch_uses_final_length(buffer: Seq<u8>, final_len: u32)
    requires
        final_len <= buffer.len(),
        valid_utf8(buffer.take(final_len as int)),
    ensures
        spec_fetch_text(ERROR_SUCCESS, buffer, final_len) == Ok::<Seq<char>, Error>(
            decode_utf8(buffer.take(final_len as int)),
        ),
{
}

} // verus!
