//! One request/response exchange on one stream.
//!
//! The handler owns no transport: the caller reads the stream's readable
//! half to its end (capped at `MAX_REQUEST_SIZE`) and hands the outcome in;
//! the handler decodes, resolves and decides. When a file must be read, the
//! caller performs the read and hands the outcome to `finish_exchange` for
//! the final response bytes. Within one stream the order is strict: the
//! request is fully read before any response byte is produced.

use vstd::prelude::*;
use vstd::utf8::valid_utf8;

use crate::codec::decode_request;
use crate::codec::decoded_path;
use crate::codec::encode_failure;
use crate::codec::encode_file_failure;
use crate::codec::failure_response;
use crate::codec::file_error_prefix;
use crate::codec::frame_well_formed;
use crate::error::RequestError;
use crate::error::reason_illegal_component_prefix;
use crate::error::reason_malformed_frame;
use crate::error::reason_malformed_utf8;
use crate::error::reason_not_absolute;
use crate::resolve::ResolvedPath;
use crate::resolve::ServerRoot;
use crate::resolve::has_parent;
use crate::resolve::is_absolute;
use crate::resolve::parent_component;
use crate::resolve::path_segments;
use crate::resolve::joined_kept;
use crate::resolve::resolve;
use crate::resolve::resolved_view;
use crate::bytes::starts_with;

verus! {

/// The most bytes one request frame may hold; a caller reads a stream's
/// readable half to its end under this cap.
pub const MAX_REQUEST_SIZE: usize = 64 * 1024;

/// What one exchange does after the request bytes arrived (or did not).
pub enum HandlerStep {
    /// The request never arrived: log the error and write nothing back.
    Abandon(RequestError),
    /// The request was rejected: write these response bytes, then finish
    /// the stream.
    Respond(Vec<u8>),
    /// The request resolved: read this file, hand the outcome to
    /// `finish_exchange`, write its response, then finish the stream.
    Fetch(ResolvedPath),
}

/// The outcome a well-read request frame has against a root: either the
/// resolved path's bytes, or the failure response owed for it.
pub open spec fn request_outcome(root: Seq<u8>, frame: Seq<u8>) -> Result<Seq<u8>, Seq<u8>> {
    if !frame_well_formed(frame) {
        Err(failure_response(reason_malformed_frame()))
    } else {
        let p = decoded_path(frame);
        if !valid_utf8(p) {
            Err(failure_response(reason_malformed_utf8()))
        } else if !is_absolute(p) {
            Err(failure_response(reason_not_absolute()))
        } else if has_parent(path_segments(p)) {
            Err(failure_response(reason_illegal_component_prefix() + parent_component()))
        } else {
            Ok(resolved_view(root, p))
        }
    }
}

/// Law: confinement holds at the handler level too — whenever a request
/// frame names a file to fetch, the fetched path's bytes start with the
/// configured root's bytes.
pub proof fn lemma_fetched_path_confined(root: Seq<u8>, frame: Seq<u8>)
    requires
        request_outcome(root, frame) is Ok,
    ensures
        starts_with(request_outcome(root, frame)->Ok_0, root),
{
    let p = decoded_path(frame);
    assert((root + joined_kept(path_segments(p))).take(root.len() as int) =~= root);
}

/// Decides one exchange from the outcome of reading the stream: a failed
/// read abandons the exchange with no response; a rejected request is
/// answered with its failure response; a resolved request names the file
/// to fetch.
pub fn plan_exchange(root: &ServerRoot, read: Option<Vec<u8>>) -> (r: HandlerStep)
    ensures
        (match read {
            None => r matches HandlerStep::Abandon(e) && e is ReadFailed,
            Some(frame) => match r {
                HandlerStep::Respond(resp) => request_outcome(root@, frame@) matches Err(t)
                    && resp@ == t,
                HandlerStep::Fetch(p) => request_outcome(root@, frame@) matches Ok(b) && p@ == b,
                HandlerStep::Abandon(_) => false,
            },
        }),
{
    let frame = match read {
        None => {
            return HandlerStep::Abandon(RequestError::ReadFailed);
        },
        Some(frame) => frame,
    };
    let req = match decode_request(frame.as_slice()) {
        Err(e) => {
            return HandlerStep::Respond(encode_failure(&e));
        },
        Ok(req) => req,
    };
    match resolve(root, req.path.as_slice()) {
        Err(e) => HandlerStep::Respond(encode_failure(&e)),
        Ok(p) => HandlerStep::Fetch(p),
    }
}

/// Builds the final response once the resolved file was read: the file's
/// bytes verbatim on success, the textual failure carrying the underlying
/// reason otherwise — never a partial success.
pub fn finish_exchange(file: Result<Vec<u8>, Vec<u8>>) -> (r: Vec<u8>)
    ensures
        (match file {
            Ok(data) => r@ == data@,
            Err(detail) => r@ == failure_response(file_error_prefix() + detail@),
        }),
{
    match file {
        Ok(data) => data,
        Err(detail) => encode_file_failure(detail.as_slice()),
    }
}

/// The lower-case hexadecimal digit for a value below sixteen.
pub open spec fn hex_digit(n: u8) -> u8
    recommends
        n < 16,
{
    if n < 10 {
        (48 + n) as u8
    } else {
        (87 + n) as u8
    }
}

/// One byte's escaped form: tab, carriage return, line feed, backslash and
/// both quotes get a backslash escape, printable bytes stand as they are,
/// and every other byte becomes `\xNN` in lower-case hexadecimal.
pub open spec fn escape_byte(b: u8) -> Seq<u8> {
    if b == 9 {
        seq![92u8, 116]
    } else if b == 13 {
        seq![92u8, 114]
    } else if b == 10 {
        seq![92u8, 110]
    } else if b == 92 {
        seq![92u8, 92]
    } else if b == 39 {
        seq![92u8, 39]
    } else if b == 34 {
        seq![92u8, 34]
    } else if 32 <= b && b <= 126 {
        seq![b]
    } else {
        seq![92u8, 120, hex_digit(b / 16), hex_digit(b % 16)]
    }
}

/// The escaped form of a whole byte sequence, in order.
pub open spec fn escaped(s: Seq<u8>) -> Seq<u8>
    decreases s.len(),
{
    if s.len() == 0 {
        Seq::empty()
    } else {
        escaped(s.drop_last()) + escape_byte(s.last())
    }
}

/// Escapes the raw request bytes for the exchange's log line, so that
/// control bytes and non-printable bytes cannot corrupt the log.
pub fn escape_bytes(s: &[u8]) -> (r: Vec<u8>)
    ensures
        r@ == escaped(s@),
{
    let mut r: Vec<u8> = Vec::new();
    let mut i: usize = 0;
    while i < s.len()
        invariant
            0 <= i <= s@.len(),
            r@ == escaped(s@.take(i as int)),
        decreases s@.len() - i,
    {
        let b = s[i];
        if b == 9 {
            r.push(92);
            r.push(116);
        } else if b == 13 {
            r.push(92);
            r.push(114);
        } else if b == 10 {
            r.push(92);
            r.push(110);
        } else if b == 92 {
            r.push(92);
            r.push(92);
        } else if b == 39 {
            r.push(92);
            r.push(39);
        } else if b == 34 {
            r.push(92);
            r.push(34);
        } else if 32 <= b && b <= 126 {
            r.push(b);
        } else {
            r.push(92);
            r.push(120);
            let hi = b / 16;
            let lo = b % 16;
            r.push(if hi < 10 { 48 + hi } else { 87 + hi });
            r.push(if lo < 10 { 48 + lo } else { 87 + lo });
        }
        proof {
            let pre = s@.take(i + 1);
            assert(pre.drop_last() =~= s@.take(i as int));
            assert(pre.last() == s@[i as int]);
            assert(r@ =~= escaped(s@.take(i as int)) + escape_byte(s@[i as int]));
        }
        i = i + 1;
    }
    proof {
        assert(s@.take(s@.len() as int) =~= s@);
    }
    r
}

} // verus!
