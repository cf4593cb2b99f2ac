//! Trace-line formatting for the callback bridge's handler.
//!
//! The bridge's handler timestamps each engine message and writes it as
//! `{timestamp} ({category}) {text}`. The timestamp is local time, or
//! UTC when the local offset cannot be determined. The handler always
//! answers the `Default` disposition: this layer never cancels.

use vstd::prelude::*;
use crate::message::{HandlerResult, MessageType};

verus! {

/// The shape of one trace line: `{timestamp} ({category}) {text}`.
pub open spec fn spec_trace_line(ts: Seq<char>, label: Seq<char>, text: Seq<char>) -> Seq<char> {
    ts + " ("@ + label + ") "@ + text
}

/// Formats one trace line from its parts.
pub fn format_line(timestamp: &str, category: MessageType, text: &str) -> (r: String)
    ensures
        r@ == spec_trace_line(timestamp@, category.spec_label(), text@),
{
    let mut out = String::from_str(timestamp);
    out.append(" (");
    out.append(category.label());
    out.append(") ");
    out.append(text);
    out
}

/// Relies on `time::OffsetDateTime::now_local`: reads the clock at the
/// local offset; yields nothing when that offset cannot be determined.
#[verifier::external_body]
fn local_now() -> (r: Option<String>) {
    time::OffsetDateTime::now_local().ok().map(|t| format!("{:?}", t))
}

/// Relies on `time::OffsetDateTime::now_utc`: reads the clock in UTC.
#[verifier::external_body]
fn utc_now() -> (r: String) {
    format!("{:?}", time::OffsetDateTime::now_utc())
}

/// The current timestamp text: local time when the local offset is
/// known, UTC otherwise. The text depends on the clock, so nothing is
/// promised of it.
pub fn timestamp() -> (r: String) {
    match local_now() {
        Some(t) => t,
        None => utc_now(),
    }
}

/// Builds the line traced for one engine message, and the disposition
/// handed back: the line is `{timestamp} ({category}) {text}` for some
/// clock reading, and the disposition is always `Default`.
pub fn trace_message(category: MessageType, text: &str) -> (r: (String, HandlerResult))
    ensures
        exists|ts: Seq<char>| r.0@ == spec_trace_line(ts, category.spec_label(), text@),
        r.1 == HandlerResult::Default,
{
    let ts = timestamp();
    let line = format_line(ts.as_str(), category, text);
    proof {
        assert(line@ == spec_trace_line(ts@, category.spec_label(), text@));
    }
    (line, HandlerResult::Default)
}

/// Decides the bridge's whole response to one raw engine message whose
/// record text has already been fetched: a trace line when the high byte
/// names a known category, no line otherwise, and in either case the
/// integer coding of the `Default` disposition back to the engine.
pub fn bridge_response(raw_category: u32, text: &str) -> (r: (Option<String>, u32))
    ensures
        MessageType::spec_from_raw(raw_category) matches Some(c) ==> (r.0 matches Some(line)
            && exists|ts: Seq<char>| line@ == spec_trace_line(ts, c.spec_label(), text@)),
        MessageType::spec_from_raw(raw_category) is None ==> r.0 is None,
        r.1 == HandlerResult::Default.spec_code(),
{
    match MessageType::from_raw(raw_category) {
        Some(category) => {
            let (line, disposition) = trace_message(category, text);
            (Some(line), disposition.code())
        },
        None => (None, HandlerResult::Default.code()),
    }
}

} // verus!
