//! Verified binary-digit expansion of raw sample bytes: each byte becomes
//! eight ASCII bits, most significant first, the transport encoding used
//! for OS-sourced samples.

use vstd::prelude::*;
use vstd::string::StringExecFns;

verus! {

/// The character for bit `k` (0 = most significant) of `b`.
pub open spec fn bit_char(b: u8, k: int) -> char {
    if (b >> (7 - k) as u8) & 1 == 1 {
        '1'
    } else {
        '0'
    }
}

/// The eight binary digits of one byte, most significant first.
pub open spec fn byte_bits(b: u8) -> Seq<char> {
    Seq::new(8, |k: int| bit_char(b, k))
}

/// The binary-digit expansion of a byte string.
pub open spec fn bits_of(bs: Seq<u8>) -> Seq<char>
    decreases bs.len(),
{
    if bs.len() == 0 {
        Seq::empty()
    } else {
        byte_bits(bs[0]) + bits_of(bs.drop_first())
    }
}

/// Every character of `s` is `'0'` or `'1'`.
pub open spec fn is_bit_string(s: Seq<char>) -> bool {
    forall|i: int| 0 <= i < s.len() ==> s[i] == '0' || s[i] == '1'
}

/// The expansion of `n` bytes has `8 * n` binary digits.
pub proof fn lemma_bits_of_props(bs: Seq<u8>)
    ensures
        bits_of(bs).len() == 8 * bs.len(),
        is_bit_string(bits_of(bs)),
    decreases bs.len(),
{
    if bs.len() > 0 {
        lemma_bits_of_props(bs.drop_first());
        assert forall|i: int| 0 <= i < bits_of(bs).len() implies bits_of(bs)[i] == '0' || bits_of(
            bs,
        )[i] == '1' by {
            if i >= 8 {
                assert(bits_of(bs)[i] == bits_of(bs.drop_first())[i - 8]);
            }
        }
    }
}

/// Appending one byte to the input appends its eight digits to the output.
proof fn lemma_bits_of_push(bs: Seq<u8>, b: u8)
    ensures
        bits_of(bs.push(b)) == bits_of(bs) + byte_bits(b),
    decreases bs.len(),
{
    if bs.len() == 0 {
        assert(bs.push(b).drop_first() =~= Seq::<u8>::empty());
        assert(bits_of(Seq::<u8>::empty()) == Seq::<char>::empty());
        assert(bs.push(b)[0] == b);
        assert(bits_of(bs.push(b)) == byte_bits(b) + bits_of(Seq::<u8>::empty()));
        assert(bits_of(bs.push(b)) =~= bits_of(bs) + byte_bits(b));
    } else {
        assert(bs.push(b).drop_first() =~= bs.drop_first().push(b));
        lemma_bits_of_push(bs.drop_first(), b);
        assert(bs.push(b)[0] == bs[0]);
        assert(bits_of(bs.push(b)) == byte_bits(bs[0]) + bits_of(bs.drop_first().push(b)));
        assert(bits_of(bs.push(b)) =~= bits_of(bs) + byte_bits(b));
    }
}

/// Expands `bytes` into its binary-digit string.
pub fn encode_bits(bytes: &[u8]) -> (r: String)
    ensures
        r@ == bits_of(bytes@),
        r@.len() == 8 * bytes@.len(),
{
    let mut out = String::new();
    proof {
        assert(bits_of(bytes@.take(0)) =~= Seq::<char>::empty());
    }
    let mut i: usize = 0;
    while i < bytes.len()
        invariant
            i <= bytes@.len(),
            out@ == bits_of(bytes@.take(i as int)),
        decreases bytes@.len() - i,
    {
        let b = bytes[i];
        let ghost prefix = out@;
        let mut k: usize = 0;
        while k < 8
            invariant
                k <= 8,
                out@ == prefix + byte_bits(b).take(k as int),
        decreases 8 - k,
        {
            proof {
                reveal_strlit("0");
                reveal_strlit("1");
            }
            let bit: u8 = (b >> (7 - k as u32) as u8) & 1;
            if bit == 1 {
                out.append("1");
            } else {
                out.append("0");
            }
            proof {
                assert(byte_bits(b).take(k + 1) =~= byte_bits(b).take(k as int).push(
                    bit_char(b, k as int),
                ));
                assert(out@ =~= prefix + byte_bits(b).take(k + 1));
            }
            k = k + 1;
        }
        proof {
            assert(byte_bits(b).take(8) =~= byte_bits(b));
            assert(bytes@.take(i as int).push(b) =~= bytes@.take(i + 1));
            lemma_bits_of_push(bytes@.take(i as int), b);
        }
        i = i + 1;
    }
    proof {
        assert(bytes@.take(i as int) =~= bytes@);
        lemma_bits_of_props(bytes@);
    }
    out
}

} // verus!
