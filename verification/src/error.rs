//! JS error values and the panic/unwind boundary's message logic: what a
//! native call reports to the host when it fails rather than returning.

use vstd::prelude::*;
use vstd::string::StringExecFns;
use vstd::string::StrSliceExecFns;
use crate::text::truncate_chars;

verus! {

/// The marker signalling that a host exception has been, or must be,
/// raised; the host-visible error object itself lives with the host.
#[derive(Clone, Copy, Debug, PartialEq, Eq, Structural)]
pub struct Throw;

/// The most characters of one message the host's string representation
/// accepts; whatever crosses the boundary is cut to this length.
pub const MESSAGE_WIRE_LIMIT: usize = 0x7fff_ffff;

/// `s` cut to the wire limit.
pub open spec fn wire_cut(s: Seq<char>) -> Seq<char> {
    if s.len() <= MESSAGE_WIRE_LIMIT {
        s
    } else {
        s.subrange(0, MESSAGE_WIRE_LIMIT as int)
    }
}

/// A handle to a JS `Error` object, held as an opaque host value.
#[derive(Clone, Copy, Debug, PartialEq, Eq, Structural)]
pub struct JsError {
    handle: usize,
}

impl JsError {
    /// The raw host handle behind this value.
    pub closed spec fn spec_raw(self) -> usize {
        self.handle
    }

    /// Hand the raw host handle back to the wrapping layer.
    pub fn to_raw(self) -> (h: usize)
        ensures
            h == self.spec_raw(),
    {
        self.handle
    }

    /// Wrap a raw host handle.
    pub fn from_raw(h: usize) -> (e: JsError)
        ensures
            e.spec_raw() == h,
    {
        JsError { handle: h }
    }

    /// The class name under which the host reports this value's type.
    pub fn name() -> (n: String)
        ensures
            n@ == "Error"@,
    {
        String::from_str("Error")
    }

    /// Every error constructor hands its message to the host only when it
    /// fits the wire limit; an over-long message raises `Throw` instead,
    /// with nothing built.
    pub fn prepare_message<'a>(msg: &'a str) -> (r: Result<&'a str, Throw>)
        ensures
            r is Ok <==> msg@.len() <= MESSAGE_WIRE_LIMIT,
            r matches Ok(m) ==> m@ == msg@,
    {
        if msg.unicode_len() <= MESSAGE_WIRE_LIMIT {
            Ok(msg)
        } else {
            Err(Throw)
        }
    }
}

/// The message reported to the host for a caught panic: the internal
/// error marker, followed by the panic's own text when it carried any.
pub open spec fn panic_message_spec(payload: Option<Seq<char>>) -> Seq<char> {
    match payload {
        Some(s) => "internal error in Neon module: "@ + s,
        None => "internal error in Neon module"@,
    }
}

/// Render the host-visible description of a caught panic, cut to the
/// wire limit. The unwind boundary raises a generic host error carrying
/// this text in place of the native failure.
pub fn panic_message(payload: Option<&str>) -> (m: String)
    ensures
        payload matches Some(s) ==> m@ == wire_cut(panic_message_spec(Some(s@))),
        payload is None ==> m@ == wire_cut(panic_message_spec(None)),
{
    let full: String = match payload {
        Some(s) => {
            let mut m = String::from_str("internal error in Neon module: ");
            m.append(s);
            m
        },
        None => String::from_str("internal error in Neon module"),
    };
    let cut = truncate_chars(full.as_str(), MESSAGE_WIRE_LIMIT);
    String::from_str(cut)
}

} // verus!
