//! The records that handlers emit, one per received payload: its size, and
//! its text either escaped into printable ASCII or as it came.
use vstd::prelude::*;

verus! {

/// The lower-case hexadecimal digit, as an ASCII byte, for a value below 16.
pub open spec fn hex_digit(n: u8) -> u8 {
    if n < 10 {
        (48 + n) as u8
    } else {
        (87 + n) as u8
    }
}

/// How one byte is shown: tab, carriage return and line feed as `\t`, `\r`,
/// `\n`; a single quote, a double quote and a backslash behind a backslash;
/// every other printable ASCII byte as itself; anything else as `\x` and two
/// lower-case hex digits.
pub open spec fn escaped_byte(b: u8) -> Seq<u8> {
    if b == 9 {
        seq![92u8, 116u8]
    } else if b == 13 {
        seq![92u8, 114u8]
    } else if b == 10 {
        seq![92u8, 110u8]
    } else if b == 39 || b == 34 || b == 92 {
        seq![92u8, b]
    } else if 0x20 <= b && b <= 0x7e {
        seq![b]
    } else {
        seq![92u8, 120u8, hex_digit(b / 16), hex_digit(b % 16)]
    }
}

/// The escaped form of a byte string: each byte's form, in order.
pub open spec fn escaped(p: Seq<u8>) -> Seq<u8>
    decreases p.len(),
{
    if p.len() == 0 {
        Seq::empty()
    } else {
        escaped(p.drop_last()) + escaped_byte(p.last())
    }
}

/// Relies on std::ascii::escape_default, whose documentation gives exactly
/// the rules of `escaped_byte`.
#[verifier::external_body]
fn escape_byte(b: u8) -> (r: Vec<u8>)
    ensures
        r@ == escaped_byte(b),
{
    std::ascii::escape_default(b).collect()
}

/// The escaped, printable ASCII form of a payload.
pub fn escape_payload(p: &[u8]) -> (r: Vec<u8>)
    ensures
        r@ == escaped(p@),
{
    let mut r: Vec<u8> = Vec::new();
    let mut i: usize = 0;
    while i < p.len()
        invariant
            i <= p@.len(),
            r@ == escaped(p@.subrange(0, i as int)),
        decreases p@.len() - i,
    {
        let mut part = escape_byte(p[i]);
        r.append(&mut part);
        assert(p@.subrange(0, i + 1).drop_last() == p@.subrange(0, i as int));
        i = i + 1;
    }
    assert(p@.subrange(0, p@.len() as int) == p@);
    r
}

/// What a handler records of one payload: its size and its escaped form.
#[derive(Clone, Debug, PartialEq, Eq)]
pub struct PayloadRecord {
    pub size: usize,
    pub text: Vec<u8>,
}

/// The record of a payload.
pub fn record_of(p: &[u8]) -> (r: PayloadRecord)
    ensures
        r.size == p@.len(),
        r.text@ == escaped(p@),
{
    PayloadRecord { size: p.len(), text: escape_payload(p) }
}

/// The record of a datagram: its size and its bytes as they came, to be
/// shown decoded.
pub fn datagram_record(d: &[u8]) -> (r: PayloadRecord)
    ensures
        r.size == d@.len(),
        r.text@ == d@,
{
    PayloadRecord { size: d.len(), text: vstd::slice::slice_to_vec(d) }
}

} // verus!
