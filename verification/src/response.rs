//! Framing of a response: a status line, the fixed `Server` header, a
//! `Content-Length` computed from the body's byte length, the fixed
//! `Content-Type`, a blank line, and the body. No other headers are sent,
//! and the connection closes after one response.

use vstd::prelude::*;

verus! {

/// The status a response carries.
#[derive(Clone, Copy)]
pub enum Status {
    /// 200: the requested file was read and is the body.
    Okay,
    /// 400: the request was malformed or named no configured host.
    BadRequest,
    /// 404: the requested file does not exist; the body is the error document.
    NotFound,
    /// 500: a filesystem failure other than absence.
    ServerError,
}

/// The three digits of a status code.
pub open spec fn code_digits(st: Status) -> Seq<u8> {
    match st {
        Status::Okay => seq![50u8, 48u8, 48u8],
        Status::BadRequest => seq![52u8, 48u8, 48u8],
        Status::NotFound => seq![52u8, 48u8, 52u8],
        Status::ServerError => seq![53u8, 48u8, 48u8],
    }
}

/// The reason phrase of a status code.
pub open spec fn reason_phrase(st: Status) -> Seq<u8> {
    match st {
        Status::Okay => seq![79u8, 75u8],
        Status::BadRequest => seq![66u8, 97u8, 100u8, 32u8, 82u8, 101u8, 113u8, 117u8, 101u8, 115u8, 116u8],
        Status::NotFound => seq![78u8, 111u8, 116u8, 32u8, 70u8, 111u8, 117u8, 110u8, 100u8],
        Status::ServerError => seq![73u8, 110u8, 116u8, 101u8, 114u8, 110u8, 97u8, 108u8, 32u8, 83u8, 101u8, 114u8, 118u8, 101u8, 114u8, 32u8, 69u8, 114u8, 114u8, 111u8, 114u8],
    }
}

/// The fixed protocol prefix of every status line.
pub open spec fn version_prefix() -> Seq<u8> {
    seq![72u8, 84u8, 84u8, 80u8, 47u8, 49u8, 46u8, 49u8, 32u8]
}

/// The fixed `Server` identification header line.
pub open spec fn server_line() -> Seq<u8> {
    seq![83u8, 101u8, 114u8, 118u8, 101u8, 114u8, 58u8, 32u8, 114u8, 117u8, 115u8, 116u8, 121u8, 45u8, 115u8, 101u8, 114u8, 118u8, 101u8, 114u8, 13u8, 10u8]
}

/// The start of the `Content-Length` header line.
pub open spec fn content_length_prefix() -> Seq<u8> {
    seq![67u8, 111u8, 110u8, 116u8, 101u8, 110u8, 116u8, 45u8, 76u8, 101u8, 110u8, 103u8, 116u8, 104u8, 58u8, 32u8]
}

/// The fixed `Content-Type` header line.
pub open spec fn content_type_line() -> Seq<u8> {
    seq![67u8, 111u8, 110u8, 116u8, 101u8, 110u8, 116u8, 45u8, 84u8, 121u8, 112u8, 101u8, 58u8, 32u8, 116u8, 101u8, 120u8, 116u8, 47u8, 104u8, 116u8, 109u8, 108u8, 13u8, 10u8]
}

/// The two-byte line ending.
pub open spec fn crlf_seq() -> Seq<u8> {
    seq![13u8, 10u8]
}

/// The decimal digits of `n`, most significant first, no leading zeros
/// (the single digit `0` for zero).
pub open spec fn dec_digits(n: nat) -> Seq<u8>
    decreases n,
{
    if n < 10 {
        seq![(48 + n) as u8]
    } else {
        dec_digits(n / 10) + seq![(48 + n % 10) as u8]
    }
}

/// The status line of a response.
pub open spec fn spec_status_line(st: Status) -> Seq<u8> {
    version_prefix() + code_digits(st) + seq![32u8] + reason_phrase(st) + crlf_seq()
}

/// The exact bytes written for a response: status line, `Server` header,
/// `Content-Length` over the body's byte length, `Content-Type`, a blank
/// line, then the body.
pub open spec fn spec_response(st: Status, body: Seq<u8>) -> Seq<u8> {
    spec_status_line(st) + server_line() + content_length_prefix() + dec_digits(body.len())
        + crlf_seq() + content_type_line() + crlf_seq() + body
}

/// Append the decimal digits of `n` to `out`.
pub fn push_dec(out: &mut Vec<u8>, n: usize)
    ensures
        final(out)@ == old(out)@ + dec_digits(n as nat),
    decreases n,
{
    if n >= 10 {
        push_dec(out, n / 10);
    }
    let d: u8 = (n % 10) as u8;
    out.push(48 + d);
    proof {
        assert(out@ =~= old(out)@ + dec_digits(n as nat));
    }
}

/// The status line of a response, as bytes.
fn status_line_vec(st: Status) -> (r: Vec<u8>)
    ensures
        r@ == spec_status_line(st),
{
    let mut v: Vec<u8> = Vec::new();
    v.push(72);
    v.push(84);
    v.push(84);
    v.push(80);
    v.push(47);
    v.push(49);
    v.push(46);
    v.push(49);
    v.push(32);
    match st {
        Status::Okay => {
            v.push(50);
            v.push(48);
            v.push(48);
            v.push(32);
            v.push(79);
            v.push(75);
            v.push(13);
            v.push(10);
        },
        Status::BadRequest => {
            v.push(52);
            v.push(48);
            v.push(48);
            v.push(32);
            v.push(66);
            v.push(97);
            v.push(100);
            v.push(32);
            v.push(82);
            v.push(101);
            v.push(113);
            v.push(117);
            v.push(101);
            v.push(115);
            v.push(116);
            v.push(13);
            v.push(10);
        },
        Status::NotFound => {
            v.push(52);
            v.push(48);
            v.push(52);
            v.push(32);
            v.push(78);
            v.push(111);
            v.push(116);
            v.push(32);
            v.push(70);
            v.push(111);
            v.push(117);
            v.push(110);
            v.push(100);
            v.push(13);
            v.push(10);
        },
        Status::ServerError => {
            v.push(53);
            v.push(48);
            v.push(48);
            v.push(32);
            v.push(73);
            v.push(110);
            v.push(116);
            v.push(101);
            v.push(114);
            v.push(110);
            v.push(97);
            v.push(108);
            v.push(32);
            v.push(83);
            v.push(101);
            v.push(114);
            v.push(118);
            v.push(101);
            v.push(114);
            v.push(32);
            v.push(69);
            v.push(114);
            v.push(114);
            v.push(111);
            v.push(114);
            v.push(13);
            v.push(10);
        },
    }
    proof {
        assert(v@ =~= spec_status_line(st));
    }
    v
}

/// The `Server` header line and the start of the `Content-Length` line.
fn header_prefix_vec() -> (r: Vec<u8>)
    ensures
        r@ == server_line() + content_length_prefix(),
{
    let mut v: Vec<u8> = Vec::new();
    v.push(83);
    v.push(101);
    v.push(114);
    v.push(118);
    v.push(101);
    v.push(114);
    v.push(58);
    v.push(32);
    v.push(114);
    v.push(117);
    v.push(115);
    v.push(116);
    v.push(121);
    v.push(45);
    v.push(115);
    v.push(101);
    v.push(114);
    v.push(118);
    v.push(101);
    v.push(114);
    v.push(13);
    v.push(10);
    v.push(67);
    v.push(111);
    v.push(110);
    v.push(116);
    v.push(101);
    v.push(110);
    v.push(116);
    v.push(45);
    v.push(76);
    v.push(101);
    v.push(110);
    v.push(103);
    v.push(116);
    v.push(104);
    v.push(58);
    v.push(32);
    proof {
        assert(v@ =~= server_line() + content_length_prefix());
    }
    v
}

/// The bytes between the `Content-Length` digits and the body.
fn header_tail_vec() -> (r: Vec<u8>)
    ensures
        r@ == crlf_seq() + content_type_line() + crlf_seq(),
{
    let mut v: Vec<u8> = Vec::new();
    v.push(13);
    v.push(10);
    v.push(67);
    v.push(111);
    v.push(110);
    v.push(116);
    v.push(101);
    v.push(110);
    v.push(116);
    v.push(45);
    v.push(84);
    v.push(121);
    v.push(112);
    v.push(101);
    v.push(58);
    v.push(32);
    v.push(116);
    v.push(101);
    v.push(120);
    v.push(116);
    v.push(47);
    v.push(104);
    v.push(116);
    v.push(109);
    v.push(108);
    v.push(13);
    v.push(10);
    v.push(13);
    v.push(10);
    proof {
        assert(v@ =~= crlf_seq() + content_type_line() + crlf_seq());
    }
    v
}

/// The full byte sequence of a response with the given status and body.
pub fn build_response(st: Status, body: &Vec<u8>) -> (r: Vec<u8>)
    ensures
        r@ == spec_response(st, body@),
{
    let mut out = status_line_vec(st);
    let mid = header_prefix_vec();
    crate::bytes::append_vec(&mut out, &mid);
    push_dec(&mut out, body.len());
    let tail = header_tail_vec();
    crate::bytes::append_vec(&mut out, &tail);
    crate::bytes::append_vec(&mut out, body);
    proof {
        assert(out@ =~= spec_response(st, body@));
    }
    out
}

} // verus!
