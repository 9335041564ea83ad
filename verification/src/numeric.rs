//! Decoding the numeric wire format the relational store uses for
//! exact amounts: a header of four big-endian 16-bit fields — digit
//! group count, weight, sign, display scale — followed by base-10000
//! digit groups of two bytes each. The decoder renders the value as
//! decimal text; turning that text into a number is the caller's
//! business.

use vstd::prelude::*;

use crate::fmt::digit_char;
use crate::fmt::spec_u64_string;

verus! {

/// Why a byte string is not a readable numeric value.
#[derive(Clone, Copy, Debug, PartialEq, Eq, Structural)]
pub enum NumericError {
    /// Shorter than the eight header bytes.
    TooShort,
    /// The header promises more digit groups than there are bytes.
    Truncated,
}

/// A big-endian pair of bytes read as a signed 16-bit value.
pub open spec fn be_i16(hi: u8, lo: u8) -> int {
    let v = (hi as int) * 256 + (lo as int);
    if v >= 32768 {
        v - 65536
    } else {
        v
    }
}

/// How many decimal digits `m` has.
pub open spec fn dec_len(m: nat) -> nat
    decreases m,
{
    if m < 10 {
        1
    } else {
        1 + dec_len(m / 10)
    }
}

/// `k` zero characters (none when `k` is not positive).
pub open spec fn zeros(k: int) -> Seq<char> {
    Seq::new(if k > 0 {
        k as nat
    } else {
        0
    }, |i: int| '0')
}

/// The digits of `m`, left-padded with zeros to width `w`.
pub open spec fn zero_padded(m: nat, w: int) -> Seq<char> {
    zeros(w - dec_len(m)) + spec_u64_string(m)
}

/// One base-10000 digit group rendered to width four, the way the
/// service's formatter renders a signed value: a minus sign, when the
/// group is negative, counts toward the width.
pub open spec fn group_text(d: int) -> Seq<char> {
    if d >= 0 {
        zero_padded(d as nat, 4)
    } else {
        seq!['-'] + zero_padded((-d) as nat, 3)
    }
}

/// The first `count` digit groups of `raw`, rendered in order.
pub open spec fn digit_groups(raw: Seq<u8>, count: int) -> Seq<char>
    decreases count,
{
    if count <= 0 {
        Seq::empty()
    } else {
        digit_groups(raw, count - 1) + group_text(
            be_i16(raw[8 + 2 * (count - 1)], raw[8 + 2 * (count - 1) + 1]),
        )
    }
}

/// The decimal text a well-formed numeric byte string denotes. A zero
/// sign byte marks the value as signed; a display scale inside the
/// digits places the decimal point, counted from the start of the
/// text, sign character included.
pub open spec fn numeric_text(raw: Seq<u8>) -> Result<Seq<char>, NumericError> {
    if raw.len() < 8 {
        Err(NumericError::TooShort)
    } else {
        let ndigits = be_i16(raw[0], raw[1]);
        let weight = be_i16(raw[2], raw[3]);
        let sign = raw[4];
        let dscale = be_i16(raw[5], raw[6]);
        if ndigits == 0 {
            Ok("0"@)
        } else if 8 + 2 * ndigits > raw.len() {
            Err(NumericError::Truncated)
        } else {
            let body = (if sign == 0 {
                seq!['-']
            } else {
                Seq::<char>::empty()
            }) + digit_groups(raw, ndigits);
            let pos = (weight + 1) * 4 - dscale;
            if 0 < pos < body.len() {
                Ok(body.insert(pos, '.'))
            } else {
                Ok(body)
            }
        }
    }
}

/// The decimal rendering of `m` has one character per digit.
proof fn lemma_dec_len(m: nat)
    ensures
        spec_u64_string(m).len() == dec_len(m),
    decreases m,
{
    if m >= 10 {
        lemma_dec_len(m / 10);
    }
}

/// Appends the decimal digits of `m`.
fn push_digits(v: &mut Vec<char>, m: u64)
    ensures
        final(v)@ == old(v)@ + spec_u64_string(m as nat),
    decreases m,
{
    if m < 10 {
        v.push(digit_char(m));
        proof {
            assert(v@ =~= old(v)@ + spec_u64_string(m as nat));
        }
    } else {
        push_digits(v, m / 10);
        v.push(digit_char(m % 10));
        proof {
            assert(v@ =~= old(v)@ + spec_u64_string(m as nat));
        }
    }
}

/// Appends the digits of `m`, left-padded with zeros to width `w`.
fn push_padded(v: &mut Vec<char>, m: u64, w: usize)
    requires
        w <= 4,
    ensures
        final(v)@ == old(v)@ + zero_padded(m as nat, w as int),
{
    let digits: usize = if m < 10 {
        1
    } else if m < 100 {
        2
    } else if m < 1000 {
        3
    } else if m < 10000 {
        4
    } else {
        5
    };
    proof {
        if m < 10000 {
            assert(dec_len(m as nat) == digits) by {
                if m >= 10 {
                    assert(dec_len((m / 10) as nat) == digits - 1) by {
                        if m >= 100 {
                            assert(dec_len((m / 100) as nat) == digits - 2) by {
                                if m >= 1000 {
                                    assert(dec_len((m / 1000) as nat) == 1);
                                }
                            }
                        }
                    }
                }
            }
        } else {
            assert(dec_len(m as nat) >= 4) by {
                assert(dec_len(m as nat) == 1 + dec_len((m / 10) as nat));
                assert(dec_len((m / 10) as nat) == 1 + dec_len((m / 100) as nat));
                assert(dec_len((m / 100) as nat) == 1 + dec_len((m / 1000) as nat));
                assert(dec_len((m / 1000) as nat) >= 1);
            }
        }
    }
    if w > digits {
        let mut k: usize = 0;
        while k < w - digits
            invariant
                w <= 4,
                w > digits,
                k <= w - digits,
                v@ == old(v)@ + zeros(k as int),
            decreases w - digits - k,
        {
            v.push('0');
            proof {
                assert(v@ =~= old(v)@ + zeros(k + 1));
            }
            k = k + 1;
        }
    }
    proof {
        assert(v@ =~= old(v)@ + zeros(w - dec_len(m as nat)));
    }
    push_digits(v, m);
    proof {
        assert(v@ =~= old(v)@ + zero_padded(m as nat, w as int));
    }
}

/// Appends one rendered digit group.
fn push_group(v: &mut Vec<char>, d: i32)
    requires
        -32768 <= d <= 32767,
    ensures
        final(v)@ == old(v)@ + group_text(d as int),
{
    if d >= 0 {
        push_padded(v, d as u64, 4);
    } else {
        v.push('-');
        push_padded(v, (-(d as i64)) as u64, 3);
        proof {
            assert(v@ =~= old(v)@ + group_text(d as int));
        }
    }
}

/// A big-endian pair of bytes read as a signed 16-bit value.
fn read_be_i16(hi: u8, lo: u8) -> (r: i32)
    ensures
        r == be_i16(hi, lo),
        -32768 <= r <= 32767,
{
    let v: i32 = (hi as i32) * 256 + (lo as i32);
    if v >= 32768 {
        v - 65536
    } else {
        v
    }
}

/// The characters of `v` as a string.
fn string_of_chars(v: &Vec<char>) -> (s: String)
    ensures
        s@ == v@,
{
    let mut s = String::new();
    let mut i: usize = 0;
    while i < v.len()
        invariant
            i <= v@.len(),
            s@ == v@.take(i as int),
        decreases v@.len() - i,
    {
        crate::fmt::push_char(&mut s, v[i]);
        proof {
            assert(v@.take(i + 1).drop_last() =~= v@.take(i as int));
            assert(s@ =~= v@.take(i + 1));
        }
        i = i + 1;
    }
    proof {
        assert(v@.take(v@.len() as int) =~= v@);
    }
    s
}

/// Decodes a numeric byte string into the decimal text it denotes.
/// Fails when the header is incomplete or promises more digit groups
/// than the bytes hold; everything else decodes, and the caller parses
/// the text into its own exact number type.
pub fn decode_numeric(raw: &[u8]) -> (r: Result<String, NumericError>)
    ensures
        match r {
            Ok(s) => numeric_text(raw@) == Ok::<Seq<char>, NumericError>(s@),
            Err(e) => numeric_text(raw@) == Err::<Seq<char>, NumericError>(e),
        },
{
    if raw.len() < 8 {
        return Err(NumericError::TooShort);
    }
    let ndigits = read_be_i16(raw[0], raw[1]);
    let weight = read_be_i16(raw[2], raw[3]);
    let sign = raw[4];
    let dscale = read_be_i16(raw[5], raw[6]);

    if ndigits == 0 {
        return Ok(String::from_str("0"));
    }
    let count: usize = if ndigits > 0 {
        ndigits as usize
    } else {
        0
    };
    if ndigits > 0 && raw.len() < 8 + 2 * count {
        return Err(NumericError::Truncated);
    }

    let raw_len = raw.len();
    let mut body: Vec<char> = Vec::new();
    if sign == 0 {
        body.push('-');
    }
    let ghost prefix = body@;
    let mut i: usize = 0;
    proof {
        assert(body@ =~= prefix + digit_groups(raw@, 0));
    }
    while i < count
        invariant
            raw_len == raw@.len(),
            8 + 2 * count <= raw_len,
            body@ == prefix + digit_groups(raw@, i as int),
            i <= count,
        decreases count - i,
    {
        let d = read_be_i16(raw[8 + 2 * i], raw[8 + 2 * i + 1]);
        push_group(&mut body, d);
        i = i + 1;
    }
    proof {
        assert(digit_groups(raw@, ndigits as int) == digit_groups(raw@, count as int));
    }

    let pos: i64 = (weight as i64 + 1) * 4 - dscale as i64;
    if 0 < pos {
        let p = pos as usize;
        if p < body.len() {
            body.insert(p, '.');
        }
    }
    Ok(string_of_chars(&body))
}

} // verus!
