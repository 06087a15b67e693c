//! The wire codec: request frames in, responses out.
//!
//! A request frame is the verb `GET`, then either the terminator directly
//! (an empty path region) or one space and the path region, closed by the
//! two bytes `\r\n`. Within the region, the bytes before the first space are
//! the path; anything after a space is reserved and ignored. A success
//! response is the file's bytes verbatim; a failure response is the text
//! `failed to process request: {reason}\n`.

use vstd::prelude::*;

use crate::bytes::find_byte;
use crate::bytes::scan_byte;
use crate::bytes::copy_range;
use crate::bytes::lemma_find_byte_bounds;
use crate::bytes::lemma_find_byte_is;
use crate::error::RequestError;
use crate::error::reason_of;

verus! {

/// The space byte, separating the verb from the path region.
pub const SPACE: u8 = 32;

/// The carriage-return byte, first half of the frame terminator.
pub const CARRIAGE_RETURN: u8 = 13;

/// The line-feed byte, second half of the frame terminator.
pub const LINE_FEED: u8 = 10;

/// The bytes of the only verb the protocol knows.
pub open spec fn verb_bytes() -> Seq<u8> {
    seq![71u8, 69, 84]
}

/// The two-byte frame terminator.
pub open spec fn terminator() -> Seq<u8> {
    seq![13u8, 10]
}

/// The request frame grammar. The shortest frame is the verb followed at
/// once by the terminator, carrying an empty path region; every longer
/// frame separates the verb from its region with one space.
pub open spec fn frame_well_formed(f: Seq<u8>) -> bool {
    &&& f.len() >= 5
    &&& f.take(3) == verb_bytes()
    &&& f.skip(f.len() - 2) == terminator()
    &&& (f.len() > 5 ==> f[3] == SPACE)
}

/// The path region of a well-formed frame: what stands between the verb's
/// separating space and the terminator.
pub open spec fn frame_region(f: Seq<u8>) -> Seq<u8> {
    if f.len() <= 5 {
        seq![]
    } else {
        f.subrange(4, f.len() - 2)
    }
}

/// The raw path a well-formed frame requests: its region up to the first
/// space.
pub open spec fn decoded_path(f: Seq<u8>) -> Seq<u8> {
    frame_region(f).take(find_byte(frame_region(f), SPACE))
}

/// The one verb of the protocol.
pub enum Verb {
    Get,
}

/// The structured form of a parsed request frame: the verb and the raw,
/// still untrusted path.
pub struct Request {
    pub verb: Verb,
    pub path: Vec<u8>,
}

/// Parses a full request frame, read from a stream to its end, into a
/// structured request. Succeeds exactly on well-formed frames and yields
/// the frame's raw path; every other input is a malformed frame.
pub fn decode_request(frame: &[u8]) -> (r: Result<Request, RequestError>)
    ensures
        r is Ok <==> frame_well_formed(frame@),
        (match r {
            Ok(req) => req.verb == Verb::Get && req.path@ == decoded_path(frame@),
            Err(e) => e is MalformedFrame,
        }),
{
    let n = frame.len();
    if n < 5 {
        return Err(RequestError::MalformedFrame);
    }
    if frame[0] != 71 || frame[1] != 69 || frame[2] != 84 {
        assert(frame@.take(3) != verb_bytes());
        return Err(RequestError::MalformedFrame);
    }
    assert(frame@.take(3) =~= verb_bytes());
    if frame[n - 2] != 13 || frame[n - 1] != 10 {
        assert(frame@.skip(n - 2) != terminator());
        return Err(RequestError::MalformedFrame);
    }
    assert(frame@.skip(n - 2) =~= terminator());
    if n == 5 {
        let req = Request { verb: Verb::Get, path: Vec::new() };
        assert(decoded_path(frame@) =~= Seq::<u8>::empty());
        return Ok(req);
    }
    if frame[3] != 32 {
        return Err(RequestError::MalformedFrame);
    }
    let ghost region = frame_region(frame@);
    let sp = scan_byte(frame, 4, SPACE);
    let end = if sp < n - 2 {
        sp
    } else {
        n - 2
    };
    proof {
        if sp < n - 2 {
            assert forall|j: int| 0 <= j < sp - 4 implies region[j] != SPACE by {
                assert(region[j] == frame@[j + 4]);
            }
            assert(region[sp - 4] == frame@[sp as int]);
            lemma_find_byte_is(region, SPACE, sp - 4);
        } else {
            assert forall|j: int| 0 <= j < region.len() implies region[j] != SPACE by {
                assert(region[j] == frame@[j + 4]);
            }
            lemma_find_byte_is(region, SPACE, region.len() as int);
        }
        assert(decoded_path(frame@) =~= frame@.subrange(4, end as int));
    }
    let path = copy_range(frame, 4, end);
    Ok(Request { verb: Verb::Get, path })
}

/// The frame that requests `path`: the verb, one space, the path, the
/// terminator.
pub open spec fn encoded_request(path: Seq<u8>) -> Seq<u8> {
    verb_bytes() + seq![SPACE] + path + terminator()
}

/// Builds the wire frame requesting `path`, as a client writes it onto a
/// fresh stream.
pub fn encode_request(path: &[u8]) -> (r: Vec<u8>)
    ensures
        r@ == encoded_request(path@),
{
    let mut r: Vec<u8> = vec![71u8, 69, 84, 32];
    r.extend_from_slice(path);
    r.push(13);
    r.push(10);
    assert(r@ =~= encoded_request(path@));
    r
}

/// Law: a request frame round-trips. Encoding any path gives a well-formed
/// frame, decoding recovers the path up to its first space, and a path
/// without spaces comes back unchanged.
pub proof fn lemma_request_round_trip(path: Seq<u8>)
    ensures
        frame_well_formed(encoded_request(path)),
        decoded_path(encoded_request(path)) == path.take(find_byte(path, SPACE)),
        !path.contains(SPACE) ==> decoded_path(encoded_request(path)) == path,
{
    let f = encoded_request(path);
    assert(f.len() == path.len() + 6);
    assert(f.take(3) =~= verb_bytes());
    assert(f.skip(f.len() - 2) =~= terminator());
    assert(frame_region(f) =~= path);
    assert(decoded_path(f) == path.take(find_byte(path, SPACE)));
    lemma_find_byte_bounds(path, SPACE);
    if !path.contains(SPACE) {
        assert(find_byte(path, SPACE) == path.len()) by {
            if find_byte(path, SPACE) < path.len() {
                assert(path[find_byte(path, SPACE)] == SPACE);
            }
        }
        assert(path.take(path.len() as int) =~= path);
    }
}

/// The fixed front of every failure response.
pub open spec fn failure_prefix() -> Seq<u8> {
    seq![102u8, 97, 105, 108, 101, 100, 32, 116, 111, 32, 112, 114, 111, 99, 101, 115, 115, 32, 114, 101, 113, 117, 101, 115, 116, 58, 32]
}

/// The wire form of a failure: `failed to process request: {reason}\n`.
pub open spec fn failure_response(reason: Seq<u8>) -> Seq<u8> {
    failure_prefix() + reason + seq![10u8]
}

/// Serializes a request error into the textual failure response written
/// back on the stream.
pub fn encode_failure(e: &RequestError) -> (r: Vec<u8>)
    ensures
        r@ == failure_response(reason_of(*e)),
{
    let mut r: Vec<u8> = vec![102u8, 97, 105, 108, 101, 100, 32, 116, 111, 32, 112, 114, 111, 99, 101, 115, 115, 32, 114, 101, 113, 117, 101, 115, 116, 58, 32];
    assert(r@ =~= failure_prefix());
    let reason = e.reason_text();
    r.extend_from_slice(reason.as_slice());
    r.push(10);
    assert(r@ =~= failure_response(reason_of(*e)));
    r
}

/// The fixed front of the reason carried when the resolved file could not
/// be read.
pub open spec fn file_error_prefix() -> Seq<u8> {
    seq![102u8, 97, 105, 108, 101, 100, 32, 114, 101, 97, 100, 105, 110, 103, 32, 102, 105, 108, 101, 58, 32]
}

/// Serializes a filesystem failure — the file was resolved but could not be
/// read — into the textual failure response, carrying the underlying
/// reason.
pub fn encode_file_failure(detail: &[u8]) -> (r: Vec<u8>)
    ensures
        r@ == failure_response(file_error_prefix() + detail@),
{
    let mut r: Vec<u8> = vec![102u8, 97, 105, 108, 101, 100, 32, 116, 111, 32, 112, 114, 111, 99, 101, 115, 115, 32, 114, 101, 113, 117, 101, 115, 116, 58, 32];
    assert(r@ =~= failure_prefix());
    let mut reason: Vec<u8> = vec![102u8, 97, 105, 108, 101, 100, 32, 114, 101, 97, 100, 105, 110, 103, 32, 102, 105, 108, 101, 58, 32];
    assert(reason@ =~= file_error_prefix());
    reason.extend_from_slice(detail);
    r.extend_from_slice(reason.as_slice());
    r.push(10);
    assert(r@ =~= failure_response(file_error_prefix() + detail@));
    r
}

} // verus!
