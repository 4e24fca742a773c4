use vstd::prelude::*;
use vstd::string::*;

use crate::decimal::{decimal_bytes, push_decimal};

verus! {

/// The bytes of an ASCII string.
pub open spec fn ascii_bytes(s: Seq<char>) -> Seq<u8> {
    s.map_values(|c: char| c as u8)
}

/// The record of the primary delivery: a `response_status=` line, then,
/// when the request had a body, that body between a `message<<EOF` line and
/// an `EOF` line. Nothing in the body is escaped.
pub open spec fn outcome_record(status: u16, body: Seq<u8>) -> Seq<u8> {
    let head = ascii_bytes("response_status="@) + decimal_bytes(status as nat) + seq![10u8];
    if body.len() == 0 {
        head
    } else {
        head + ascii_bytes("message<<EOF"@) + seq![10u8] + body + seq![10u8] + ascii_bytes(
            "EOF"@,
        ) + seq![10u8]
    }
}

fn push_ascii(out: &mut Vec<u8>, s: &str)
    ensures
        final(out)@ == old(out)@ + ascii_bytes(s@),
{
    let n = s.unicode_len();
    let mut j: usize = 0;
    while j < n
        invariant
            j <= n,
            n == s@.len(),
            out@ == old(out)@ + ascii_bytes(s@.subrange(0, j as int)),
        decreases n - j,
    {
        let c = s.get_char(j);
        out.push(c as u8);
        proof {
            assert(ascii_bytes(s@.subrange(0, j + 1)) =~= ascii_bytes(s@.subrange(0, j as int)).push(
                c as u8,
            ));
        }
        j = j + 1;
    }
    assert(s@.subrange(0, n as int) =~= s@);
}

fn push_bytes(out: &mut Vec<u8>, b: &[u8])
    ensures
        final(out)@ == old(out)@ + b@,
{
    let mut j: usize = 0;
    while j < b.len()
        invariant
            j <= b@.len(),
            out@ == old(out)@ + b@.subrange(0, j as int),
        decreases b@.len() - j,
    {
        out.push(b[j]);
        proof {
            assert(b@.subrange(0, j + 1) =~= b@.subrange(0, j as int).push(b@[j as int]));
        }
        j = j + 1;
    }
    assert(b@.subrange(0, b@.len() as int) =~= b@);
}

/// Frames the record of the primary delivery from its status code and the
/// raw body of the request; an empty body leaves the message block out.
pub fn render_outcome(status: u16, body: &[u8]) -> (r: Vec<u8>)
    ensures
        r@ == outcome_record(status, body@),
{
    let mut out: Vec<u8> = Vec::new();
    push_ascii(&mut out, "response_status=");
    push_decimal(status as u64, &mut out);
    out.push(10);
    if body.len() > 0 {
        push_ascii(&mut out, "message<<EOF");
        out.push(10);
        push_bytes(&mut out, body);
        out.push(10);
        push_ascii(&mut out, "EOF");
        out.push(10);
    }
    assert(out@ =~= outcome_record(status, body@));
    out
}

} // verus!
