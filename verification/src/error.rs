//! The protocol's error taxonomy and the reason text each error carries.

use vstd::prelude::*;

verus! {

/// Why a request could not be served from its own bytes.
///
/// Every variant but `ReadFailed` is answered with a textual failure
/// response built from its reason text; a `ReadFailed` exchange is abandoned
/// without a response, since the request never arrived.
#[derive(Debug)]
pub enum RequestError {
    /// The frame did not match `GET`, an optional space-separated path
    /// region, and the closing carriage-return line-feed pair.
    MalformedFrame,
    /// The path region is not valid UTF-8 text.
    MalformedUtf8,
    /// The path does not begin with the root-anchor marker `/`.
    PathNotAbsolute,
    /// The path holds a component other than a plain name segment; the
    /// offending component is carried along.
    IllegalPathComponent(Vec<u8>),
    /// The stream's readable half could not be read to its end.
    ReadFailed,
}

/// The reason text for `RequestError::MalformedFrame`.
pub open spec fn reason_malformed_frame() -> Seq<u8> {
    seq![109u8, 97, 108, 102, 111, 114, 109, 101, 100, 32, 114, 101, 113, 117, 101, 115, 116, 32, 102, 114, 97, 109, 101]
}

/// The reason text for `RequestError::MalformedUtf8`.
pub open spec fn reason_malformed_utf8() -> Seq<u8> {
    seq![112u8, 97, 116, 104, 32, 105, 115, 32, 109, 97, 108, 102, 111, 114, 109, 101, 100, 32, 85, 84, 70, 45, 56]
}

/// The reason text for `RequestError::PathNotAbsolute`.
pub open spec fn reason_not_absolute() -> Seq<u8> {
    seq![112u8, 97, 116, 104, 32, 109, 117, 115, 116, 32, 98, 101, 32, 97, 98, 115, 111, 108, 117, 116, 101]
}

/// The fixed front of `RequestError::IllegalPathComponent`'s reason text;
/// the offending component follows it.
pub open spec fn reason_illegal_component_prefix() -> Seq<u8> {
    seq![105u8, 108, 108, 101, 103, 97, 108, 32, 99, 111, 109, 112, 111, 110, 101, 110, 116, 32, 105, 110, 32, 112, 97, 116, 104, 58, 32]
}

/// The reason text for `RequestError::ReadFailed`.
pub open spec fn reason_read_failed() -> Seq<u8> {
    seq![102u8, 97, 105, 108, 101, 100, 32, 114, 101, 97, 100, 105, 110, 103, 32, 114, 101, 113, 117, 101, 115, 116]
}

/// The reason text an error carries into a failure response or a log line.
pub open spec fn reason_of(e: RequestError) -> Seq<u8> {
    match e {
        RequestError::MalformedFrame => reason_malformed_frame(),
        RequestError::MalformedUtf8 => reason_malformed_utf8(),
        RequestError::PathNotAbsolute => reason_not_absolute(),
        RequestError::IllegalPathComponent(c) => reason_illegal_component_prefix() + c@,
        RequestError::ReadFailed => reason_read_failed(),
    }
}

impl RequestError {
    /// The reason text of this error, as the bytes that responses and log
    /// lines carry.
    pub fn reason_text(&self) -> (r: Vec<u8>)
        ensures
            r@ == reason_of(*self),
    {
        match self {
            RequestError::MalformedFrame => {
                let r: Vec<u8> = vec![109u8, 97, 108, 102, 111, 114, 109, 101, 100, 32, 114, 101, 113, 117, 101, 115, 116, 32, 102, 114, 97, 109, 101];
                assert(r@ =~= reason_malformed_frame());
                r
            },
            RequestError::MalformedUtf8 => {
                let r: Vec<u8> = vec![112u8, 97, 116, 104, 32, 105, 115, 32, 109, 97, 108, 102, 111, 114, 109, 101, 100, 32, 85, 84, 70, 45, 56];
                assert(r@ =~= reason_malformed_utf8());
                r
            },
            RequestError::PathNotAbsolute => {
                let r: Vec<u8> = vec![112u8, 97, 116, 104, 32, 109, 117, 115, 116, 32, 98, 101, 32, 97, 98, 115, 111, 108, 117, 116, 101];
                assert(r@ =~= reason_not_absolute());
                r
            },
            RequestError::IllegalPathComponent(c) => {
                let mut r: Vec<u8> = vec![105u8, 108, 108, 101, 103, 97, 108, 32, 99, 111, 109, 112, 111, 110, 101, 110, 116, 32, 105, 110, 32, 112, 97, 116, 104, 58, 32];
                assert(r@ =~= reason_illegal_component_prefix());
                r.extend_from_slice(c.as_slice());
                r
            },
            RequestError::ReadFailed => {
                let r: Vec<u8> = vec![102u8, 97, 105, 108, 101, 100, 32, 114, 101, 97, 100, 105, 110, 103, 32, 114, 101, 113, 117, 101, 115, 116];
                assert(r@ =~= reason_read_failed());
                r
            },
        }
    }
}

} // verus!
