//! Verified decimal parsing for the stringly-typed inputs the pipeline
//! receives from its caller: sample counts, baud rates, and the signed
//! values read back from a serial device.

use vstd::prelude::*;

verus! {

/// An ASCII decimal digit `'0'..='9'`.
pub open spec fn is_dec_digit(b: u8) -> bool {
    0x30 <= b <= 0x39
}

/// Every byte of `bs` is an ASCII decimal digit.
pub open spec fn all_dec_digits(bs: Seq<u8>) -> bool {
    forall|i: int| 0 <= i < bs.len() ==> is_dec_digit(#[trigger] bs[i])
}

/// The value of `bs` read as a base-10 numeral, most significant digit first.
pub open spec fn dec_value(bs: Seq<u8>) -> int
    decreases bs.len(),
{
    if bs.len() == 0 {
        0
    } else {
        dec_value(bs.drop_last()) * 10 + (bs.last() - 0x30)
    }
}

/// A digit string's value is never negative.
pub proof fn lemma_dec_value_nonneg(bs: Seq<u8>)
    requires
        all_dec_digits(bs),
    ensures
        dec_value(bs) >= 0,
    decreases bs.len(),
{
    if bs.len() > 0 {
        assert(all_dec_digits(bs.drop_last()));
        lemma_dec_value_nonneg(bs.drop_last());
    }
}

/// Appending digits never decreases the value: each prefix is worth at most
/// the whole numeral.
pub proof fn lemma_dec_value_prefix(bs: Seq<u8>, i: int)
    requires
        all_dec_digits(bs),
        0 <= i <= bs.len(),
    ensures
        dec_value(bs.take(i)) <= dec_value(bs),
    decreases bs.len(),
{
    if i < bs.len() {
        let head = bs.drop_last();
        assert(all_dec_digits(head));
        assert(head.take(i) =~= bs.take(i));
        lemma_dec_value_prefix(head, i);
        lemma_dec_value_nonneg(head);
    } else {
        assert(bs.take(i) =~= bs);
    }
}

/// Parses a byte string as an unsigned base-10 numeral.  Returns the value
/// exactly when the string is a non-empty run of digits whose value fits in
/// a `u64`.
pub fn parse_u64_dec(bytes: &[u8]) -> (r: Option<u64>)
    ensures
        r matches Some(v) ==> bytes@.len() >= 1 && all_dec_digits(bytes@) && v == dec_value(
            bytes@,
        ),
        r is None ==> bytes@.len() == 0 || !all_dec_digits(bytes@) || dec_value(bytes@)
            > u64::MAX,
{
    let mut acc: u64 = 0;
    let mut i: usize = 0;
    while i < bytes.len()
        invariant
            i <= bytes@.len(),
            all_dec_digits(bytes@.take(i as int)),
            acc == dec_value(bytes@.take(i as int)),
        decreases bytes@.len() - i,
    {
        let b = bytes[i];
        if b < 0x30 || b > 0x39 {
            assert(!is_dec_digit(bytes@[i as int]));
            return None;
        }
        let d: u64 = (b - 0x30) as u64;
        proof {
            assert(bytes@.take(i + 1).drop_last() =~= bytes@.take(i as int));
            assert(bytes@.take(i + 1).last() == bytes@[i as int]);
            assert(dec_value(bytes@.take(i + 1)) == acc * 10 + d);
        }
        if acc > (u64::MAX - d) / 10 {
            proof {
                vstd::arithmetic::div_mod::lemma_fundamental_div_mod((u64::MAX - d) as int, 10);
                assert(dec_value(bytes@.take(i + 1)) > u64::MAX);
                if all_dec_digits(bytes@) {
                    lemma_dec_value_prefix(bytes@, i + 1);
                }
            }
            return None;
        }
        proof {
            vstd::arithmetic::div_mod::lemma_fundamental_div_mod((u64::MAX - d) as int, 10);
        }
        acc = acc * 10 + d;
        i = i + 1;
    }
    if bytes.len() == 0 {
        None
    } else {
        proof {
            assert(bytes@.take(i as int) =~= bytes@);
        }
        Some(acc)
    }
}

/// `bytes` parses as a positive count that fits in `max`.
pub open spec fn is_count_in_range(bs: Seq<u8>, max: int) -> bool {
    bs.len() >= 1 && all_dec_digits(bs) && 1 <= dec_value(bs) <= max
}

/// Parses a positive sample count.  `Some` exactly on non-empty digit
/// strings whose value is between 1 and `usize::MAX`.
pub fn parse_count(bytes: &[u8]) -> (r: Option<usize>)
    ensures
        r matches Some(v) ==> is_count_in_range(bytes@, usize::MAX as int) && v == dec_value(
            bytes@,
        ),
        r is None ==> !is_count_in_range(bytes@, usize::MAX as int),
{
    match parse_u64_dec(bytes) {
        Some(v) => {
            if v >= 1 && v <= usize::MAX as u64 {
                Some(v as usize)
            } else {
                None
            }
        },
        None => None,
    }
}

/// Parses a positive baud rate.  `Some` exactly on non-empty digit strings
/// whose value is between 1 and `u32::MAX`.
pub fn parse_baud(bytes: &[u8]) -> (r: Option<u32>)
    ensures
        r matches Some(v) ==> is_count_in_range(bytes@, u32::MAX as int) && v == dec_value(bytes@),
        r is None ==> !is_count_in_range(bytes@, u32::MAX as int),
{
    match parse_u64_dec(bytes) {
        Some(v) => {
            if v >= 1 && v <= u32::MAX as u64 {
                Some(v as u32)
            } else {
                None
            }
        },
        None => None,
    }
}

/// The digits of a signed numeral: everything after an optional leading
/// `'+'` or `'-'`.
pub open spec fn signed_body(bs: Seq<u8>) -> Seq<u8> {
    if bs.len() > 0 && (bs[0] == 0x2b || bs[0] == 0x2d) {
        bs.drop_first()
    } else {
        bs
    }
}

/// `bs` starts with a minus sign.
pub open spec fn signed_is_neg(bs: Seq<u8>) -> bool {
    bs.len() > 0 && bs[0] == 0x2d
}

/// The mathematical value of a signed base-10 numeral.
pub open spec fn signed_dec_value(bs: Seq<u8>) -> int {
    if signed_is_neg(bs) {
        -dec_value(signed_body(bs))
    } else {
        dec_value(signed_body(bs))
    }
}

/// `bs` is a well-formed signed numeral whose value fits in an `i64`: an
/// optional sign followed by at least one digit.
pub open spec fn is_valid_i64_dec(bs: Seq<u8>) -> bool {
    &&& signed_body(bs).len() >= 1
    &&& all_dec_digits(signed_body(bs))
    &&& i64::MIN <= signed_dec_value(bs) <= i64::MAX
}

/// The value a malformed or out-of-range numeral falls back to.
pub open spec fn lenient_i64_value(bs: Seq<u8>) -> int {
    if is_valid_i64_dec(bs) {
        signed_dec_value(bs)
    } else {
        0
    }
}

/// Parses a signed base-10 numeral, substituting 0 for anything malformed
/// or out of range, as the pipeline does for values read from a serial
/// device.
pub fn parse_i64_lenient(bytes: &[u8]) -> (r: i64)
    ensures
        r == lenient_i64_value(bytes@),
{
    let has_sign: bool = bytes.len() > 0 && (bytes[0] == 0x2b || bytes[0] == 0x2d);
    let neg: bool = bytes.len() > 0 && bytes[0] == 0x2d;
    let start: usize = if has_sign {
        1
    } else {
        0
    };
    let body = vstd::slice::slice_subrange(bytes, start, bytes.len());
    proof {
        assert(body@ =~= signed_body(bytes@));
    }
    match parse_u64_dec(body) {
        Some(v) => {
            if neg {
                if v <= i64::MAX as u64 {
                    -(v as i64)
                } else if v == 9223372036854775808u64 {
                    i64::MIN
                } else {
                    0
                }
            } else {
                if v <= i64::MAX as u64 {
                    v as i64
                } else {
                    0
                }
            }
        },
        None => {
            proof {
                if all_dec_digits(signed_body(bytes@)) && signed_body(bytes@).len() >= 1 {
                    lemma_dec_value_nonneg(signed_body(bytes@));
                }
            }
            0
        },
    }
}

} // verus!
