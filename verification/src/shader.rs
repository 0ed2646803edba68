//! The decision logic of shader building.
//!
//! The GPU driver does the heavy lifting of turning shader source into a
//! program; this module owns the verdict on what the driver reports: when
//! a status flag and its diagnostic text mean success (possibly with a
//! warning to surface) and when they mean an error carrying the driver's
//! text, plus the handling of the raw values the driver hands back (a
//! NUL-terminated log buffer, a signed location).

use vstd::prelude::*;

verus! {

broadcast use vstd::string::group_string_axioms;

/// The verdict on one compiled shader stage or linked program: on success
/// the driver's diagnostic text (if any) is surfaced as informational
/// output; on failure the diagnostic text is the error, with a fixed
/// fallback when the driver said nothing.
pub fn validate_build(status: bool, log: Option<String>) -> (r: Result<Option<String>, String>)
    ensures
        status ==> r == Ok::<Option<String>, String>(log),
        !status ==> match r {
            Ok(_) => false,
            Err(e) => match log {
                Some(l) => e == l,
                None => e@ == "unknown error"@,
            },
        },
{
    if status {
        Ok(log)
    } else {
        match log {
            Some(l) => Err(l),
            None => Err("unknown error".to_string()),
        }
    }
}

/// An attribute/uniform location as the driver reports it: negative means
/// the name has no location in the linked program (callers must treat
/// that as a legitimate absence, not an error).
pub fn location_from_raw(raw: i32) -> (r: Option<u32>)
    ensures
        raw < 0 ==> r is None,
        raw >= 0 ==> r == Some(raw as u32),
{
    if raw < 0 {
        None
    } else {
        Some(raw as u32)
    }
}

/// A driver log buffer without its trailing NUL terminator; a buffer not
/// ending in NUL is kept whole.
pub fn strip_log_terminator(buf: Vec<u8>) -> (r: Vec<u8>)
    ensures
        buf@.len() > 0 && buf@.last() == 0 ==> r@ == buf@.drop_last(),
        !(buf@.len() > 0 && buf@.last() == 0) ==> r@ == buf@,
{
    let mut buf = buf;
    if buf.len() > 0 {
        let last = buf[buf.len() - 1];
        if last == 0 {
            buf.pop();
        }
    }
    buf
}

} // verus!
