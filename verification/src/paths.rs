//! Resolution of a request path within a document root.
//!
//! The request path `/` stands for the default document `/index.html`. Any
//! path holding two consecutive dots is rejected outright, so a resolved
//! file always lies under the document root: the resolved name is the root
//! followed by a `/`-initial suffix free of `..` segments. A fixed error
//! document `/404.html` under the same root serves missing files.

use vstd::prelude::*;

use crate::bytes::{append_vec, subvec};

verus! {

/// ASCII dot and slash.
pub const DOT: u8 = 46;

pub const SLASH: u8 = 47;

/// Whether two consecutive dots occur in `s` at or after `i`.
pub open spec fn has_dotdot_from(s: Seq<u8>, i: int) -> bool
    decreases s.len() - i,
{
    if i < 0 || i + 1 >= s.len() {
        false
    } else if s[i] == DOT && s[i + 1] == DOT {
        true
    } else {
        has_dotdot_from(s, i + 1)
    }
}

/// Whether two consecutive dots occur anywhere in `s`. Every `..` path
/// segment contains such a pair, so rejecting these rejects all traversal.
pub open spec fn has_dotdot(s: Seq<u8>) -> bool {
    has_dotdot_from(s, 0)
}

/// The default document name substituted for the request path `/`.
pub open spec fn default_document() -> Seq<u8> {
    seq![47u8, 105u8, 110u8, 100u8, 101u8, 120u8, 46u8, 104u8, 116u8, 109u8, 108u8]
}

/// The error document name read when a requested file does not exist.
pub open spec fn error_document() -> Seq<u8> {
    seq![47u8, 52u8, 48u8, 52u8, 46u8, 104u8, 116u8, 109u8, 108u8]
}

/// The file a request path names under a document root: the root followed
/// by the path, with `/` standing for the default document. Paths that are
/// empty, do not begin with `/`, or hold two consecutive dots resolve to
/// nothing.
pub open spec fn spec_resolve_path(dir: Seq<u8>, path: Seq<u8>) -> Option<Seq<u8>> {
    let p = if path == seq![47u8] {
        default_document()
    } else {
        path
    };
    if p.len() == 0 || p[0] != SLASH || has_dotdot(p) {
        None
    } else {
        Some(dir + p)
    }
}

/// The name of the error document under `dir`.
pub open spec fn spec_error_doc_path(dir: Seq<u8>) -> Seq<u8> {
    dir + error_document()
}

/// Resolve `path` under the document root `dir`.
pub fn resolve_path(dir: &Vec<u8>, path: &Vec<u8>) -> (r: Option<Vec<u8>>)
    ensures
        match r {
            Some(f) => spec_resolve_path(dir@, path@) == Some(f@),
            None => spec_resolve_path(dir@, path@) is None,
        },
{
    let p: Vec<u8> = if path.len() == 1 && path[0] == SLASH {
        proof {
            assert(path@ =~= seq![47u8]);
        }
        default_document_vec()
    } else {
        proof {
            assert(path@ != seq![47u8]);
        }
        subvec(path, 0, path.len())
    };
    proof {
        assert(p@ == if path@ == seq![47u8] {
            default_document()
        } else {
            path@
        });
        assert(p@ =~= p@.subrange(0, p@.len() as int));
    }
    if p.len() == 0 || p[0] != SLASH {
        return None;
    }
    if scan_dotdot(&p) {
        return None;
    }
    let mut out = subvec(dir, 0, dir.len());
    proof {
        assert(out@ =~= dir@);
    }
    append_vec(&mut out, &p);
    Some(out)
}

/// The name of the error document under `dir`.
pub fn error_doc_path(dir: &Vec<u8>) -> (r: Vec<u8>)
    ensures
        r@ == spec_error_doc_path(dir@),
{
    let mut out = subvec(dir, 0, dir.len());
    proof {
        assert(out@ =~= dir@);
    }
    let mut suffix: Vec<u8> = Vec::new();
    suffix.push(47);
    suffix.push(52);
    suffix.push(48);
    suffix.push(52);
    suffix.push(46);
    suffix.push(104);
    suffix.push(116);
    suffix.push(109);
    suffix.push(108);
    proof {
        assert(suffix@ =~= error_document());
    }
    append_vec(&mut out, &suffix);
    out
}

/// The default document name as bytes.
fn default_document_vec() -> (r: Vec<u8>)
    ensures
        r@ == default_document(),
{
    let mut v: Vec<u8> = Vec::new();
    v.push(47);
    v.push(105);
    v.push(110);
    v.push(100);
    v.push(101);
    v.push(120);
    v.push(46);
    v.push(104);
    v.push(116);
    v.push(109);
    v.push(108);
    proof {
        assert(v@ =~= default_document());
    }
    v
}

fn scan_dotdot_from(p: &Vec<u8>, i: usize) -> (r: bool)
    ensures
        r == has_dotdot_from(p@, i as int),
    decreases p.len() - i,
{
    if i >= p.len() || p.len() - i < 2 {
        false
    } else if p[i] == DOT && p[i + 1] == DOT {
        true
    } else {
        scan_dotdot_from(p, i + 1)
    }
}

/// Whether `p` holds two consecutive dots.
pub fn scan_dotdot(p: &Vec<u8>) -> (r: bool)
    ensures
        r == has_dotdot(p@),
{
    scan_dotdot_from(p, 0)
}

/// A request path `/` resolves to the very file the explicit default
/// document path `/index.html` resolves to, under every document root.
pub proof fn lemma_root_is_default_document(dir: Seq<u8>)
    ensures
        spec_resolve_path(dir, seq![47u8]) == spec_resolve_path(dir, default_document()),
{
    assert(default_document() != seq![47u8]);
    assert(!has_dotdot(default_document())) by {
        reveal_with_fuel(has_dotdot_from, 12);
    }
}

/// No traversal escapes a document root: a path holding two consecutive
/// dots resolves to nothing, and every resolved file name starts with the
/// document root, followed by a `/`-initial suffix free of such dots.
pub proof fn lemma_no_traversal(dir: Seq<u8>, path: Seq<u8>)
    ensures
        has_dotdot(path) ==> spec_resolve_path(dir, path) is None,
        match spec_resolve_path(dir, path) {
            Some(f) => f.len() > dir.len() && f.subrange(0, dir.len() as int) == dir && f.index(
                dir.len() as int,
            ) == SLASH && !has_dotdot(f.subrange(dir.len() as int, f.len() as int)),
            None => true,
        },
{
    assert(!has_dotdot(seq![47u8])) by {
        reveal_with_fuel(has_dotdot_from, 2);
    }
    if spec_resolve_path(dir, path) is Some {
        let p = if path == seq![47u8] {
            default_document()
        } else {
            path
        };
        let f = dir + p;
        assert(f.subrange(0, dir.len() as int) =~= dir);
        assert(f.subrange(dir.len() as int, f.len() as int) =~= p);
    }
}

} // verus!
