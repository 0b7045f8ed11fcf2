//! Canonical serialization of a block's hashed fields.
//!
//! The hash input of a block is a JSON object holding, in this fixed order,
//! the fields `index`, `timestamp`, `proof_of_work` and `previous_hash`; the
//! block's own hash is deliberately not part of it. Numbers are written in
//! decimal and the predecessor hash as a JSON string with the usual escapes,
//! so that identical field values always produce identical bytes.

use vstd::prelude::*;

verus! {

/// The ASCII byte for the hexadecimal digit `d`, lowercase.
pub open spec fn hex_digit(d: nat) -> u8 {
    if d < 10 {
        (0x30 + d) as u8
    } else {
        (0x57 + d) as u8
    }
}

/// The ASCII decimal representation of `n`, most significant digit first,
/// with no leading zeros (`0` itself is the single byte `0x30`).
pub open spec fn dec_digits(n: nat) -> Seq<u8>
    decreases n,
{
    if n < 10 {
        seq![(0x30 + n) as u8]
    } else {
        dec_digits(n / 10) + seq![(0x30 + n % 10) as u8]
    }
}

/// Appends the decimal representation of `n` to `out`.
pub(crate) fn push_decimal(out: &mut Vec<u8>, n: u64)
    ensures
        final(out)@ == old(out)@ + dec_digits(n as nat),
    decreases n as nat,
{
    if n < 10 {
        out.push(0x30u8 + (n as u8));
        assert(out@ =~= old(out)@ + dec_digits(n as nat));
    } else {
        assert(n as nat / 10 < n as nat) by (nonlinear_arith)
            requires n >= 10,
        ;
        push_decimal(out, n / 10);
        out.push(0x30u8 + ((n % 10) as u8));
        assert(out@ =~= old(out)@ + dec_digits(n as nat));
    }
}

/// How one byte of a string appears inside a JSON string literal: quote and
/// backslash get a backslash escape, control bytes get their short escape or
/// the `\u00XX` form, and every other byte stands for itself.
pub open spec fn escape_byte(b: u8) -> Seq<u8> {
    if b == 0x22 {
        seq![0x5cu8, 0x22u8]
    } else if b == 0x5c {
        seq![0x5cu8, 0x5cu8]
    } else if b == 0x08 {
        seq![0x5cu8, 0x62u8]
    } else if b == 0x09 {
        seq![0x5cu8, 0x74u8]
    } else if b == 0x0a {
        seq![0x5cu8, 0x6eu8]
    } else if b == 0x0c {
        seq![0x5cu8, 0x66u8]
    } else if b == 0x0d {
        seq![0x5cu8, 0x72u8]
    } else if b < 0x20 {
        seq![0x5cu8, 0x75u8, 0x30u8, 0x30u8, hex_digit((b / 16) as nat), hex_digit((b % 16) as nat)]
    } else {
        seq![b]
    }
}

/// The body of a JSON string literal for the byte sequence `s`: each byte
/// replaced by its escape.
pub open spec fn escape_bytes(s: Seq<u8>) -> Seq<u8>
    decreases s.len(),
{
    if s.len() == 0 {
        Seq::empty()
    } else {
        escape_bytes(s.drop_last()) + escape_byte(s.last())
    }
}

/// Appends the bytes of `s` to `out`.
pub(crate) fn push_bytes(out: &mut Vec<u8>, s: &[u8])
    ensures
        final(out)@ == old(out)@ + s@,
{
    let mut i: usize = 0;
    while i < s.len()
        invariant
            i <= s@.len(),
            out@ == old(out)@ + s@.take(i as int),
        decreases s@.len() - i,
    {
        out.push(s[i]);
        proof {
            assert(s@.take(i + 1 as int) =~= s@.take(i as int).push(s@[i as int]));
            assert(out@ =~= old(out)@ + s@.take(i + 1 as int));
        }
        i = i + 1;
    }
    assert(s@.take(s@.len() as int) =~= s@);
}

/// The lowercase hexadecimal digit for `d`.
fn hex_digit_byte(d: u8) -> (r: u8)
    requires
        d < 16,
    ensures
        r == hex_digit(d as nat),
{
    if d < 10 {
        0x30u8 + d
    } else {
        0x57u8 + d
    }
}

/// Appends the JSON string escaping of the bytes of `s` to `out`.
pub(crate) fn push_escaped(out: &mut Vec<u8>, s: &[u8])
    ensures
        final(out)@ == old(out)@ + escape_bytes(s@),
{
    let mut i: usize = 0;
    while i < s.len()
        invariant
            i <= s@.len(),
            out@ == old(out)@ + escape_bytes(s@.take(i as int)),
        decreases s@.len() - i,
    {
        let b = s[i];
        if b == 0x22 {
            out.push(0x5c);
            out.push(0x22);
        } else if b == 0x5c {
            out.push(0x5c);
            out.push(0x5c);
        } else if b == 0x08 {
            out.push(0x5c);
            out.push(0x62);
        } else if b == 0x09 {
            out.push(0x5c);
            out.push(0x74);
        } else if b == 0x0a {
            out.push(0x5c);
            out.push(0x6e);
        } else if b == 0x0c {
            out.push(0x5c);
            out.push(0x66);
        } else if b == 0x0d {
            out.push(0x5c);
            out.push(0x72);
        } else if b < 0x20 {
            out.push(0x5c);
            out.push(0x75);
            out.push(0x30);
            out.push(0x30);
            out.push(hex_digit_byte(b / 16));
            out.push(hex_digit_byte(b % 16));
        } else {
            out.push(b);
        }
        proof {
            assert(s@.take(i + 1 as int).drop_last() =~= s@.take(i as int));
            assert(s@.take(i + 1 as int).last() == s@[i as int]);
            assert(out@ =~= old(out)@ + escape_bytes(s@.take(i + 1 as int)));
        }
        i = i + 1;
    }
    assert(s@.take(s@.len() as int) =~= s@);
}

/// The canonical hash input of a block: a JSON object carrying, in this
/// order, `index`, `timestamp`, `proof_of_work` and `previous_hash` — and
/// never the block's own hash.
pub open spec fn payload_of(
    index: u64,
    timestamp: u64,
    proof_of_work: u64,
    previous_hash: Seq<char>,
) -> Seq<u8> {
    vstd::utf8::encode_utf8("{\"index\":"@) + dec_digits(index as nat) + vstd::utf8::encode_utf8(
        ",\"timestamp\":"@,
    ) + dec_digits(timestamp as nat) + vstd::utf8::encode_utf8(",\"proof_of_work\":"@)
        + dec_digits(proof_of_work as nat) + vstd::utf8::encode_utf8(",\"previous_hash\":\""@)
        + escape_bytes(vstd::utf8::encode_utf8(previous_hash)) + vstd::utf8::encode_utf8("\"}"@)
}

/// Builds the canonical hash input for the given field values.
pub fn hash_payload(
    index: u64,
    timestamp: u64,
    proof_of_work: u64,
    previous_hash: &str,
) -> (out: Vec<u8>)
    ensures
        out@ == payload_of(index, timestamp, proof_of_work, previous_hash@),
{
    let mut out: Vec<u8> = Vec::new();
    push_bytes(&mut out, "{\"index\":".as_bytes());
    push_decimal(&mut out, index);
    push_bytes(&mut out, ",\"timestamp\":".as_bytes());
    push_decimal(&mut out, timestamp);
    push_bytes(&mut out, ",\"proof_of_work\":".as_bytes());
    push_decimal(&mut out, proof_of_work);
    push_bytes(&mut out, ",\"previous_hash\":\"".as_bytes());
    push_escaped(&mut out, previous_hash.as_bytes());
    push_bytes(&mut out, "\"}".as_bytes());
    proof {
        assert(out@ =~= payload_of(index, timestamp, proof_of_work, previous_hash@));
    }
    out
}

} // verus!
