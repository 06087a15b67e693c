//! Path resolution: mapping an untrusted raw request path onto the
//! configured root, confined by construction.
//!
//! A raw path must be valid UTF-8 text and must begin with the root-anchor
//! marker `/`. What follows is read as `/`-separated components: empty
//! components and the current-directory marker `.` are passed over, the
//! parent-directory marker `..` is rejected, and every other component is a
//! plain name segment appended — one by one, never by string concatenation —
//! onto a copy of the root's path. A resolved path therefore always starts
//! with the root's own bytes.

use vstd::prelude::*;
use vstd::utf8::valid_utf8;

use crate::bytes::find_byte;
use crate::bytes::scan_byte;
use crate::bytes::copy_range;
use crate::bytes::starts_with;
use crate::error::RequestError;
use crate::error::reason_of;

verus! {

/// The component separator and root-anchor marker `/`.
pub const SLASH: u8 = 47;

/// The byte `.`, doubling as the current-directory and (twice) the
/// parent-directory marker.
pub const DOT: u8 = 46;

/// The parent-directory component `..`, the one component an absolute raw
/// path can carry that is not a plain name segment.
pub open spec fn parent_component() -> Seq<u8> {
    seq![46u8, 46]
}

/// Splits a byte sequence on `/` into its components, separators dropped.
pub open spec fn split_on_sep(s: Seq<u8>) -> Seq<Seq<u8>>
    decreases s.len(),
{
    let i = find_byte(s, SLASH);
    if 0 <= i < s.len() {
        seq![s.take(i)] + split_on_sep(s.skip(i + 1))
    } else {
        seq![s]
    }
}

/// A component that survives resolution: not empty, not the
/// current-directory marker.
pub open spec fn kept(seg: Seq<u8>) -> bool {
    seg.len() > 0 && seg != seq![46u8]
}

/// Some component is the parent-directory marker.
pub open spec fn has_parent(segs: Seq<Seq<u8>>) -> bool {
    exists|i: int| 0 <= i < segs.len() && segs[i] == parent_component()
}

/// The bytes that resolution appends onto the root: each kept component,
/// preceded by one separator, in order.
pub open spec fn joined_kept(segs: Seq<Seq<u8>>) -> Seq<u8>
    decreases segs.len(),
{
    if segs.len() == 0 {
        Seq::empty()
    } else {
        let front = joined_kept(segs.drop_last());
        if kept(segs.last()) {
            front + seq![47u8] + segs.last()
        } else {
            front
        }
    }
}

/// The raw path begins with the root-anchor marker.
pub open spec fn is_absolute(raw: Seq<u8>) -> bool {
    raw.len() > 0 && raw[0] == SLASH
}

/// The components of an absolute raw path: what stands after the anchor,
/// split on `/`.
pub open spec fn path_segments(raw: Seq<u8>) -> Seq<Seq<u8>> {
    split_on_sep(raw.skip(1))
}

/// The bytes a successful resolution returns: the root's path with every
/// kept component appended.
pub open spec fn resolved_view(root: Seq<u8>, raw: Seq<u8>) -> Seq<u8> {
    root + joined_kept(path_segments(raw))
}

/// The configured root directory's path, set once at startup and shared
/// read-only by every exchange.
pub struct ServerRoot {
    path: Vec<u8>,
}

impl View for ServerRoot {
    type V = Seq<u8>;

    closed spec fn view(&self) -> Seq<u8> {
        self.path@
    }
}

impl ServerRoot {
    /// Wraps the root directory's path bytes.
    pub fn new(path: Vec<u8>) -> (r: ServerRoot)
        ensures
            r@ == path@,
    {
        ServerRoot { path }
    }

    /// The root's path bytes.
    pub fn path(&self) -> (r: &Vec<u8>)
        ensures
            r@ == self@,
    {
        &self.path
    }
}

/// A request path proven to resolve inside the configured root.
pub struct ResolvedPath {
    path: Vec<u8>,
}

impl View for ResolvedPath {
    type V = Seq<u8>;

    closed spec fn view(&self) -> Seq<u8> {
        self.path@
    }
}

impl ResolvedPath {
    /// The resolved path's bytes, for the caller that opens the file.
    pub fn as_bytes(&self) -> (r: &Vec<u8>)
        ensures
            r@ == self@,
    {
        &self.path
    }
}

/// Relies on `core::str::from_utf8`: it returns `Ok` exactly when the bytes
/// are a valid UTF-8 encoding, the property `vstd::utf8::valid_utf8` states.
#[verifier::external_body]
fn utf8_valid(bytes: &[u8]) -> (r: bool)
    ensures
        r == valid_utf8(bytes@),
{
    core::str::from_utf8(bytes).is_ok()
}

/// Everything `resolve` promises: the outcome a raw path has against a
/// root, error precedence included, with the resolved bytes pinned exactly.
pub open spec fn resolve_post(root: Seq<u8>, raw: Seq<u8>, r: Result<ResolvedPath, RequestError>) -> bool {
    match r {
        Ok(p) => {
            &&& valid_utf8(raw)
            &&& is_absolute(raw)
            &&& !has_parent(path_segments(raw))
            &&& p@ == resolved_view(root, raw)
        },
        Err(e) => match e {
            RequestError::MalformedUtf8 => !valid_utf8(raw),
            RequestError::PathNotAbsolute => valid_utf8(raw) && !is_absolute(raw),
            RequestError::IllegalPathComponent(c) => {
                &&& valid_utf8(raw)
                &&& is_absolute(raw)
                &&& has_parent(path_segments(raw))
                &&& c@ == parent_component()
            },
            _ => false,
        },
    }
}

/// Validates a raw request path and maps it onto the root.
///
/// Rejects paths that are not valid text, paths that do not begin with the
/// root-anchor marker, and paths holding a parent-directory component; any
/// other path resolves to the root's bytes with each kept component
/// appended behind one separator.
pub fn resolve(root: &ServerRoot, raw: &[u8]) -> (r: Result<ResolvedPath, RequestError>)
    ensures
        resolve_post(root@, raw@, r),
{
    if !utf8_valid(raw) {
        return Err(RequestError::MalformedUtf8);
    }
    if raw.len() == 0 || raw[0] != SLASH {
        return Err(RequestError::PathNotAbsolute);
    }
    let mut out: Vec<u8> = root.path().clone();
    let ghost rel = raw@.skip(1);
    let ghost mut done: Seq<Seq<u8>> = Seq::empty();
    let mut pos: usize = 1;
    loop
        invariant_except_break
            1 <= pos <= raw@.len(),
            raw@.len() > 0,
            split_on_sep(rel) =~= done + split_on_sep(raw@.skip(pos as int)),
            !has_parent(done),
            out@ == root@ + joined_kept(done),
            rel == raw@.skip(1),
            valid_utf8(raw@),
            is_absolute(raw@),
        ensures
            valid_utf8(raw@),
            is_absolute(raw@),
            !has_parent(split_on_sep(rel)),
            rel == raw@.skip(1),
            out@ == root@ + joined_kept(split_on_sep(rel)),
        decreases raw@.len() - pos,
    {
        let ghost t = raw@.skip(pos as int);
        let j = scan_byte(raw, pos, SLASH);
        let ghost k = j - pos;
        let seg = copy_range(raw, pos, j);
        proof {
            assert(seg@ =~= t.take(k));
        }
        let is_dot = seg.len() == 1 && seg[0] == DOT;
        let is_dotdot = seg.len() == 2 && seg[0] == DOT && seg[1] == DOT;
        if is_dotdot {
            proof {
                assert(seg@ =~= parent_component());
                if j < raw.len() {
                    assert(split_on_sep(t) == seq![t.take(k)] + split_on_sep(t.skip(k + 1)));
                } else {
                    assert(t.take(k) =~= t);
                    assert(split_on_sep(t) == seq![t]);
                }
                assert(split_on_sep(rel)[done.len() as int] == seg@);
                assert(has_parent(split_on_sep(rel)));
            }
            let component = seg;
            return Err(RequestError::IllegalPathComponent(component));
        }
        if !(seg.len() == 0 || is_dot) {
            out.push(SLASH);
            out.extend_from_slice(seg.as_slice());
        }
        proof {
            let done2 = done.push(seg@);
            assert(done2.drop_last() =~= done);
            assert(done2.last() == seg@);
            if seg@.len() == 0 {
                assert(!kept(seg@));
            } else if is_dot {
                assert(seg@ =~= seq![46u8]);
                assert(!kept(seg@));
            } else {
                assert(seg@ != seq![46u8]);
                assert(kept(seg@));
            }
            assert(joined_kept(done2) == (if kept(seg@) {
                joined_kept(done) + seq![47u8] + seg@
            } else {
                joined_kept(done)
            }));
            assert forall|i: int| 0 <= i < done2.len() implies done2[i] != parent_component() by {
                if i < done.len() {
                    assert(!has_parent(done));
                    assert(done2[i] == done[i]);
                } else {
                    assert(done2[i] == seg@);
                    assert(seg@ != parent_component());
                }
            }
            assert(!has_parent(done2));
            done = done2;
        }
        if j < raw.len() {
            proof {
                assert(split_on_sep(t) == seq![t.take(k)] + split_on_sep(t.skip(k + 1)));
                assert(t.skip(k + 1) =~= raw@.skip(j + 1));
                assert(split_on_sep(rel) =~= done + split_on_sep(raw@.skip(j + 1)));
            }
            pos = j + 1;
        } else {
            proof {
                assert(t.take(k) =~= t);
                assert(split_on_sep(t) == seq![t]);
                assert(split_on_sep(rel) =~= done);
            }
            break;
        }
    }
    Ok(ResolvedPath { path: out })
}

/// Law: a raw path carrying a parent-directory component among its
/// segments is answered with `IllegalPathComponent`, never resolved.
/// (A path that is not valid text, or not absolute, is rejected earlier
/// for that reason instead.)
pub proof fn lemma_parent_rejected(root: Seq<u8>, raw: Seq<u8>, r: Result<ResolvedPath, RequestError>)
    requires
        resolve_post(root, raw, r),
        valid_utf8(raw),
        is_absolute(raw),
        has_parent(path_segments(raw)),
    ensures
        r matches Err(e) && e is IllegalPathComponent,
{
}

/// Law: a raw path that does not begin with the root-anchor marker is
/// answered with `PathNotAbsolute`. (A path that is not valid text is
/// rejected as malformed text first.)
pub proof fn lemma_relative_rejected(root: Seq<u8>, raw: Seq<u8>, r: Result<ResolvedPath, RequestError>)
    requires
        resolve_post(root, raw, r),
        valid_utf8(raw),
        !is_absolute(raw),
    ensures
        r matches Err(e) && e is PathNotAbsolute,
{
}

/// Law: confinement. Every successfully resolved path starts with the
/// configured root's own bytes.
pub proof fn lemma_resolved_confined(root: Seq<u8>, raw: Seq<u8>, r: Result<ResolvedPath, RequestError>)
    requires
        resolve_post(root, raw, r),
        r is Ok,
    ensures
        starts_with(r->Ok_0@, root),
{
    assert((root + joined_kept(path_segments(raw))).take(root.len() as int) =~= root);
}

/// Law: resolution is a function of the root and the raw path alone — two
/// outcomes for the same inputs agree, resolved bytes and reason text
/// included.
pub proof fn lemma_resolve_deterministic(
    root: Seq<u8>,
    raw: Seq<u8>,
    r1: Result<ResolvedPath, RequestError>,
    r2: Result<ResolvedPath, RequestError>,
)
    requires
        resolve_post(root, raw, r1),
        resolve_post(root, raw, r2),
    ensures
        r1 is Ok <==> r2 is Ok,
        r1 is Ok && r2 is Ok ==> r1->Ok_0@ == r2->Ok_0@,
        r1 is Err && r2 is Err ==> reason_of(r1->Err_0) == reason_of(r2->Err_0),
{
    if r1 is Err && r2 is Err {
        let e1 = r1->Err_0;
        let e2 = r2->Err_0;
        if !valid_utf8(raw) {
            assert(e1 is MalformedUtf8 && e2 is MalformedUtf8);
        } else if !is_absolute(raw) {
            assert(e1 is PathNotAbsolute && e2 is PathNotAbsolute);
        } else {
            assert(e1 is IllegalPathComponent && e2 is IllegalPathComponent);
            assert(e1->IllegalPathComponent_0@ == e2->IllegalPathComponent_0@);
        }
    }
}

} // verus!
