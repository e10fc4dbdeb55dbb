//! Percent-decoding of request paths, on bytes.

use vstd::prelude::*;

verus! {

/// The byte `%`, which introduces an escape.
pub const PERCENT: u8 = 0x25;

/// Whether `b` is an ASCII hexadecimal digit, in either case.
pub open spec fn is_hex_digit(b: u8) -> bool {
    (0x30 <= b <= 0x39) || (0x41 <= b <= 0x46) || (0x61 <= b <= 0x66)
}

/// The number that the hexadecimal digit `b` stands for.
pub open spec fn hex_value(b: u8) -> int
    recommends
        is_hex_digit(b),
{
    if 0x30 <= b <= 0x39 {
        b - 0x30
    } else if 0x41 <= b <= 0x46 {
        b - 0x41 + 10
    } else {
        b - 0x61 + 10
    }
}

/// Whether an escape, `%` and two hexadecimal digits, starts at index `i` of `s`.
pub open spec fn escape_at(s: Seq<u8>, i: int) -> bool {
    &&& 0 <= i
    &&& i + 2 < s.len()
    &&& s[i] == PERCENT
    &&& is_hex_digit(s[i + 1])
    &&& is_hex_digit(s[i + 2])
}

/// The byte that the escape at index `i` of `s` stands for.
pub open spec fn escape_value(s: Seq<u8>, i: int) -> u8
    recommends
        escape_at(s, i),
{
    (16 * hex_value(s[i + 1]) + hex_value(s[i + 2])) as u8
}

/// The percent-decoding of `s`: every escape is replaced by the byte it
/// stands for, read from left to right; every other byte stays, a `%` that
/// starts no escape included.
pub open spec fn percent_decoded(s: Seq<u8>) -> Seq<u8>
    decreases s.len(),
{
    if s.len() == 0 {
        Seq::empty()
    } else if escape_at(s, 0) {
        seq![escape_value(s, 0)] + percent_decoded(s.skip(3))
    } else {
        seq![s[0]] + percent_decoded(s.skip(1))
    }
}

/// A sequence without `%` decodes to itself.
pub proof fn lemma_percent_decoded_plain(s: Seq<u8>)
    requires
        forall|i: int| 0 <= i < s.len() ==> s[i] != PERCENT,
    ensures
        percent_decoded(s) == s,
    decreases s.len(),
{
    if s.len() > 0 {
        lemma_percent_decoded_plain(s.skip(1));
        assert(seq![s[0]] + s.skip(1) =~= s);
    }
}

/// The value of a hexadecimal digit, or `None` for any other byte.
pub fn hex_digit(b: u8) -> (r: Option<u8>)
    ensures
        r is Some <==> is_hex_digit(b),
        r matches Some(v) ==> v == hex_value(b) && v < 16,
{
    if 0x30 <= b && b <= 0x39 {
        Some(b - 0x30)
    } else if 0x41 <= b && b <= 0x46 {
        Some(b - 0x41 + 10)
    } else if 0x61 <= b && b <= 0x66 {
        Some(b - 0x61 + 10)
    } else {
        None
    }
}

/// Percent-decodes `input`.
pub fn percent_decode(input: &[u8]) -> (out: Vec<u8>)
    ensures
        out@ == percent_decoded(input@),
{
    let n = input.len();
    let mut out: Vec<u8> = Vec::new();
    let mut i: usize = 0;
    proof {
        assert(input@.skip(0) =~= input@);
        assert(out@ + percent_decoded(input@) =~= percent_decoded(input@));
    }
    while i < n
        invariant
            n == input@.len(),
            i <= n,
            out@ + percent_decoded(input@.skip(i as int)) == percent_decoded(input@),
        decreases n - i,
    {
        let ghost rest = input@.skip(i as int);
        let mut step: usize = 1;
        let mut byte: u8 = input[i];
        if byte == PERCENT && n - i > 2 {
            match (hex_digit(input[i + 1]), hex_digit(input[i + 2])) {
                (Some(hi), Some(lo)) => {
                    byte = 16 * hi + lo;
                    step = 3;
                },
                _ => {},
            }
        }
        proof {
            assert(rest[0] == input@[i as int]);
            if n - i > 2 {
                assert(rest[1] == input@[i + 1] && rest[2] == input@[i + 2]);
            }
            assert(rest.skip(step as int) =~= input@.skip(i + step));
            assert(percent_decoded(rest) == seq![byte] + percent_decoded(rest.skip(step as int)));
            assert(out@.push(byte) + percent_decoded(rest.skip(step as int)) =~= out@
                + percent_decoded(rest));
        }
        out.push(byte);
        i = i + step;
    }
    proof {
        assert(input@.skip(n as int) =~= Seq::<u8>::empty());
        assert(out@ + Seq::<u8>::empty() =~= out@);
    }
    out
}

} // verus!
