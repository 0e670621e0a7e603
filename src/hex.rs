use vstd::prelude::*;
use vstd::string::StringSliceAdditionalSpecFns;

verus! {

pub open spec fn is_hex_digit(c: u8) -> bool {
    (48 <= c <= 57) || (65 <= c <= 70) || (97 <= c <= 102)
}

/// The value of an ASCII hex digit.
pub open spec fn hex_val(c: u8) -> nat {
    if 48 <= c <= 57 {
        (c - 48) as nat
    } else if 65 <= c <= 70 {
        (c - 55) as nat
    } else {
        (c - 87) as nat
    }
}

/// The bytes that the pairs of hex digits in `s` stand for.
pub open spec fn hex_decode(s: Seq<u8>) -> Seq<u8> {
    Seq::new(s.len() / 2, |i: int| (16 * hex_val(s[2 * i]) + hex_val(s[2 * i + 1])) as u8)
}

fn digit_value(c: u8) -> (r: u8)
    requires
        is_hex_digit(c),
    ensures
        r == hex_val(c),
        r < 16,
{
    if c <= 57 {
        c - 48
    } else if c <= 70 {
        c - 55
    } else {
        c - 87
    }
}

/// Turns a string of hex digit pairs into the bytes they stand for.
pub fn unhexlify(byte_str: &str) -> (r: Vec<u8>)
    requires
        byte_str.spec_bytes().len() % 2 == 0,
        forall|i: int| 0 <= i < byte_str.spec_bytes().len() ==> is_hex_digit(#[trigger] byte_str.spec_bytes()[i]),
    ensures
        r@ == hex_decode(byte_str.spec_bytes()),
{
    let b = byte_str.as_bytes();
    let mut out: Vec<u8> = Vec::new();
    let mut i: usize = 0;
    while i + 1 < b.len()
        invariant
            b@ == byte_str.spec_bytes(),
            b@.len() % 2 == 0,
            i % 2 == 0,
            i <= b@.len(),
            forall|j: int| 0 <= j < b@.len() ==> is_hex_digit(#[trigger] b@[j]),
            out@ == hex_decode(b@).take(i as int / 2),
        decreases b@.len() - i,
    {
        let hi = digit_value(b[i]);
        let lo = digit_value(b[i + 1]);
        out.push(hi * 16 + lo);
        proof {
            assert(hex_decode(b@).take((i + 2) as int / 2) =~= hex_decode(b@).take(i as int / 2).push(
                (16 * hex_val(b@[i as int]) + hex_val(b@[i + 1])) as u8,
            ));
        }
        i = i + 2;
    }
    proof {
        assert(hex_decode(b@).take(i as int / 2) =~= hex_decode(b@));
    }
    out
}

} // verus!
