//! Byte-sequence helpers shared by the parser and the path resolver.

use vstd::prelude::*;

verus! {

/// ASCII byte values the grammar speaks of.
pub const CR: u8 = 13;

pub const LF: u8 = 10;

pub const SP: u8 = 32;

pub const HTAB: u8 = 9;

pub const UPPER_A: u8 = 65;

pub const UPPER_Z: u8 = 90;


/// The first index at or after `from` where `b` occurs in `s`, if any.
pub open spec fn find_byte(s: Seq<u8>, from: int, b: u8) -> Option<int>
    decreases s.len() - from,
{
    if from < 0 || from >= s.len() {
        None
    } else if s[from] == b {
        Some(from)
    } else {
        find_byte(s, from + 1, b)
    }
}

/// Every hit of `find_byte` lies inside `s`, at or after `from`, and is the
/// first occurrence of `b` in that range.
pub proof fn lemma_find_byte(s: Seq<u8>, from: int, b: u8)
    requires
        0 <= from,
    ensures
        match find_byte(s, from, b) {
            Some(i) => from <= i < s.len() && s[i] == b && forall|j: int|
                from <= j < i ==> s[j] != b,
            None => forall|j: int| from <= j < s.len() ==> s[j] != b,
        },
    decreases s.len() - from,
{
    if 0 <= from < s.len() && s[from] != b {
        lemma_find_byte(s, from + 1, b);
    }
}

/// First occurrence of `b` in `v` at or after `from`.
pub fn find_byte_from(v: &Vec<u8>, from: usize, b: u8) -> (r: Option<usize>)
    ensures
        match r {
            Some(i) => find_byte(v@, from as int, b) == Some(i as int),
            None => find_byte(v@, from as int, b) is None,
        },
    decreases v.len() - from,
{
    if from >= v.len() {
        None
    } else if v[from] == b {
        Some(from)
    } else {
        find_byte_from(v, from + 1, b)
    }
}

/// The first index at or after `from` where the two-byte sequence CR LF
/// starts in `s`, if any.
pub open spec fn find_crlf(s: Seq<u8>, from: int) -> Option<int>
    decreases s.len() - from,
{
    if from < 0 || from + 2 > s.len() {
        None
    } else if s[from] == CR && s[from + 1] == LF {
        Some(from)
    } else {
        find_crlf(s, from + 1)
    }
}

/// Every hit of `find_crlf` is an in-range CR LF pair, and the first one at
/// or after `from`.
pub proof fn lemma_find_crlf(s: Seq<u8>, from: int)
    requires
        0 <= from,
    ensures
        match find_crlf(s, from) {
            Some(i) => from <= i && i + 2 <= s.len() && s[i] == CR && s[i + 1] == LF
                && forall|j: int| from <= j < i ==> !(#[trigger] s[j] == CR && s[j + 1] == LF),
            None => forall|j: int| from <= j && j + 2 <= s.len() ==> !(#[trigger] s[j] == CR && s[j
                + 1] == LF),
        },
    decreases s.len() - from,
{
    if from + 2 <= s.len() && !(s[from] == CR && s[from + 1] == LF) {
        lemma_find_crlf(s, from + 1);
    }
}

/// First CR LF pair in `v` at or after `from`.
pub fn find_crlf_from(v: &Vec<u8>, from: usize) -> (r: Option<usize>)
    ensures
        match r {
            Some(i) => find_crlf(v@, from as int) == Some(i as int),
            None => find_crlf(v@, from as int) is None,
        },
    decreases v.len() - from,
{
    if from >= v.len() || v.len() - from < 2 {
        None
    } else if v[from] == CR && v[from + 1] == LF {
        Some(from)
    } else {
        find_crlf_from(v, from + 1)
    }
}

/// ASCII upper-case letters folded to lower case; all other bytes unchanged.
pub open spec fn lower_byte(b: u8) -> u8 {
    if UPPER_A <= b <= UPPER_Z {
        (b + 32) as u8
    } else {
        b
    }
}

/// Byte sequences equal up to ASCII case.
pub open spec fn eq_ignore_case(a: Seq<u8>, b: Seq<u8>) -> bool {
    a.len() == b.len() && forall|i: int| 0 <= i < a.len() ==> lower_byte(a[i]) == lower_byte(
        #[trigger] b[i],
    )
}

/// Case-insensitive comparison of `a[afrom..ato]` with the whole of `b`.
pub fn range_eq_ignore_case(a: &Vec<u8>, afrom: usize, ato: usize, b: &Vec<u8>) -> (r: bool)
    requires
        afrom <= ato <= a.len(),
    ensures
        r == eq_ignore_case(a@.subrange(afrom as int, ato as int), b@),
{
    if ato - afrom != b.len() {
        return false;
    }
    let ghost sub = a@.subrange(afrom as int, ato as int);
    let mut i: usize = 0;
    while i < b.len()
        invariant
            afrom <= ato <= a.len(),
            ato - afrom == b.len(),
            i <= b.len(),
            sub == a@.subrange(afrom as int, ato as int),
            forall|j: int| 0 <= j < i ==> lower_byte(sub[j]) == lower_byte(#[trigger] b@[j]),
        decreases b.len() - i,
    {
        let mut x = a[afrom + i];
        let mut y = b[i];
        if UPPER_A <= x && x <= UPPER_Z {
            x = x + 32;
        }
        if UPPER_A <= y && y <= UPPER_Z {
            y = y + 32;
        }
        if x != y {
            return false;
        }
        i = i + 1;
    }
    true
}

/// Exact comparison of `a[afrom..ato]` with the whole of `b`.
pub fn range_eq(a: &Vec<u8>, afrom: usize, ato: usize, b: &Vec<u8>) -> (r: bool)
    requires
        afrom <= ato <= a.len(),
    ensures
        r == (a@.subrange(afrom as int, ato as int) == b@),
{
    if ato - afrom != b.len() {
        proof {
            assert(a@.subrange(afrom as int, ato as int).len() != b@.len());
        }
        return false;
    }
    let ghost sub = a@.subrange(afrom as int, ato as int);
    let mut i: usize = 0;
    while i < b.len()
        invariant
            afrom <= ato <= a.len(),
            ato - afrom == b.len(),
            i <= b.len(),
            sub == a@.subrange(afrom as int, ato as int),
            forall|j: int| 0 <= j < i ==> sub[j] == #[trigger] b@[j],
        decreases b.len() - i,
    {
        if a[afrom + i] != b[i] {
            proof {
                assert(sub[i as int] != b@[i as int]);
            }
            return false;
        }
        i = i + 1;
    }
    proof {
        assert(sub =~= b@);
    }
    true
}

/// A byte of optional whitespace: space or horizontal tab.
pub open spec fn is_ows(b: u8) -> bool {
    b == SP || b == HTAB
}

/// The first index at or after `from` that holds a byte other than space or
/// tab; `s.len()` when there is none.
pub open spec fn skip_ows(s: Seq<u8>, from: int) -> int
    decreases s.len() - from,
{
    if from < 0 || from >= s.len() {
        s.len() as int
    } else if is_ows(s[from]) {
        skip_ows(s, from + 1)
    } else {
        from
    }
}

/// The index just past the last byte before `upto` that is not space or tab;
/// 0 when there is none.
pub open spec fn rskip_ows(s: Seq<u8>, upto: int) -> int
    decreases upto,
{
    if upto <= 0 || upto > s.len() {
        0
    } else if is_ows(s[upto - 1]) {
        rskip_ows(s, upto - 1)
    } else {
        upto
    }
}

/// `s` with leading and trailing spaces and tabs removed.
pub open spec fn trim_ows(s: Seq<u8>) -> Seq<u8> {
    let i = skip_ows(s, 0);
    let j = rskip_ows(s, s.len() as int);
    if i <= j {
        s.subrange(i, j)
    } else {
        Seq::empty()
    }
}

pub proof fn lemma_skip_ows_bounds(s: Seq<u8>, from: int)
    requires
        0 <= from <= s.len(),
    ensures
        from <= skip_ows(s, from) <= s.len(),
    decreases s.len() - from,
{
    if from < s.len() && is_ows(s[from]) {
        lemma_skip_ows_bounds(s, from + 1);
    }
}

pub proof fn lemma_rskip_ows_bounds(s: Seq<u8>, upto: int)
    requires
        0 <= upto <= s.len(),
    ensures
        0 <= rskip_ows(s, upto) <= upto,
    decreases upto,
{
    if 0 < upto && is_ows(s[upto - 1]) {
        lemma_rskip_ows_bounds(s, upto - 1);
    }
}

fn skip_ows_from(v: &Vec<u8>, from: usize, to: usize) -> (r: usize)
    requires
        from <= to,
        to == v.len(),
    ensures
        r == skip_ows(v@, from as int),
        from <= r <= v.len(),
    decreases v.len() - from,
{
    proof {
        lemma_skip_ows_bounds(v@, from as int);
    }
    if from >= v.len() {
        v.len()
    } else if v[from] == SP || v[from] == HTAB {
        skip_ows_from(v, from + 1, to)
    } else {
        from
    }
}

fn rskip_ows_upto(v: &Vec<u8>, upto: usize) -> (r: usize)
    requires
        upto <= v.len(),
    ensures
        r == rskip_ows(v@, upto as int),
        r <= upto,
    decreases upto,
{
    proof {
        lemma_rskip_ows_bounds(v@, upto as int);
    }
    if upto == 0 {
        0
    } else if v[upto - 1] == SP || v[upto - 1] == HTAB {
        rskip_ows_upto(v, upto - 1)
    } else {
        upto
    }
}

/// A copy of `v[from..to]` with leading and trailing spaces and tabs removed.
pub fn trimmed_subvec(v: &Vec<u8>, from: usize, to: usize) -> (r: Vec<u8>)
    requires
        from <= to <= v.len(),
    ensures
        r@ == trim_ows(v@.subrange(from as int, to as int)),
{
    let part = subvec(v, from, to);
    proof {
        lemma_skip_ows_bounds(part@, 0);
        lemma_rskip_ows_bounds(part@, part@.len() as int);
    }
    let i = skip_ows_from(&part, 0, part.len());
    let j = rskip_ows_upto(&part, part.len());
    if i <= j {
        subvec(&part, i, j)
    } else {
        proof {
            assert(Seq::<u8>::empty() =~= trim_ows(part@));
        }
        Vec::new()
    }
}

/// Append every byte of `src` to `out`.
pub fn append_vec(out: &mut Vec<u8>, src: &Vec<u8>)
    ensures
        final(out)@ == old(out)@ + src@,
{
    let mut i: usize = 0;
    while i < src.len()
        invariant
            i <= src.len(),
            out@ == old(out)@ + src@.subrange(0, i as int),
        decreases src.len() - i,
    {
        out.push(src[i]);
        proof {
            assert(out@ =~= old(out)@ + src@.subrange(0, i + 1 as int));
        }
        i = i + 1;
    }
    proof {
        assert(old(out)@ + src@.subrange(0, src@.len() as int) =~= old(out)@ + src@);
    }
}

/// A copy of `v[from..to]`.
pub fn subvec(v: &Vec<u8>, from: usize, to: usize) -> (r: Vec<u8>)
    requires
        from <= to <= v.len(),
    ensures
        r@ == v@.subrange(from as int, to as int),
{
    let mut out: Vec<u8> = Vec::new();
    let mut i: usize = from;
    while i < to
        invariant
            from <= i <= to <= v.len(),
            out@ == v@.subrange(from as int, i as int),
        decreases to - i,
    {
        out.push(v[i]);
        proof {
            assert(out@ =~= v@.subrange(from as int, i + 1 as int));
        }
        i = i + 1;
    }
    out
}

} // verus!
