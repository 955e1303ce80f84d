use vstd::prelude::*;
use vstd::string::*;

verus! {

/// A numeric parameter of a source (a radius, a current, a position, …),
/// carried as the bit pattern of a binary64 value. The registry stores and
/// returns these patterns untouched; interpreting them as real numbers is the
/// business of the numeric layer outside the verified core.
pub type Scalar = u64;

/// The lower-case hexadecimal digit for a value below sixteen.
pub open spec fn hex_digit(n: u64) -> Seq<char> {
    if n == 0 {
        "0"@
    } else if n == 1 {
        "1"@
    } else if n == 2 {
        "2"@
    } else if n == 3 {
        "3"@
    } else if n == 4 {
        "4"@
    } else if n == 5 {
        "5"@
    } else if n == 6 {
        "6"@
    } else if n == 7 {
        "7"@
    } else if n == 8 {
        "8"@
    } else if n == 9 {
        "9"@
    } else if n == 10 {
        "a"@
    } else if n == 11 {
        "b"@
    } else if n == 12 {
        "c"@
    } else if n == 13 {
        "d"@
    } else if n == 14 {
        "e"@
    } else {
        "f"@
    }
}

/// Nibble `j` of a bit pattern, counting from the most significant.
pub open spec fn nibble(bits: u64, j: int) -> u64 {
    (bits >> (((15 - j) * 4) as u64)) & 0xf
}

/// The first `k` hexadecimal digits of a bit pattern, most significant first.
pub open spec fn spec_hex_prefix(bits: u64, k: int) -> Seq<char>
    decreases k,
{
    if k <= 0 {
        Seq::empty()
    } else {
        spec_hex_prefix(bits, k - 1) + hex_digit(nibble(bits, k - 1))
    }
}

/// The rendering of a scalar: `0x` followed by all sixteen hexadecimal
/// digits of its bit pattern.
pub open spec fn spec_scalar_hex(bits: u64) -> Seq<char> {
    "0x"@ + spec_hex_prefix(bits, 16)
}

/// Every hexadecimal digit is a single character, and distinct values below
/// sixteen render as distinct characters.
pub proof fn lemma_hex_digit_injective(m: u64, n: u64)
    requires
        m < 16,
        n < 16,
    ensures
        hex_digit(m).len() == 1,
        hex_digit(m) == hex_digit(n) ==> m == n,
{
    reveal_strlit("0");
    reveal_strlit("1");
    reveal_strlit("2");
    reveal_strlit("3");
    reveal_strlit("4");
    reveal_strlit("5");
    reveal_strlit("6");
    reveal_strlit("7");
    reveal_strlit("8");
    reveal_strlit("9");
    reveal_strlit("a");
    reveal_strlit("b");
    reveal_strlit("c");
    reveal_strlit("d");
    reveal_strlit("e");
    reveal_strlit("f");
    if hex_digit(m) == hex_digit(n) {
        assert(hex_digit(m)[0] == hex_digit(n)[0]);
    }
}

/// A prefix of `k` digits has length `k`.
pub proof fn lemma_hex_prefix_len(bits: u64, k: int)
    requires
        0 <= k <= 16,
    ensures
        spec_hex_prefix(bits, k).len() == k,
    decreases k,
{
    if k > 0 {
        lemma_hex_prefix_len(bits, k - 1);
        assert(nibble(bits, k - 1) < 16) by {
            let sh = (((15 - (k - 1)) * 4) as u64);
            assert((bits >> sh) & 0xf < 16) by (bit_vector);
        }
        lemma_hex_digit_injective(nibble(bits, k - 1), 0);
    }
}

/// Equal digit prefixes come from equal nibbles, digit by digit.
proof fn lemma_hex_prefix_injective(b1: u64, b2: u64, k: int)
    requires
        0 <= k <= 16,
        spec_hex_prefix(b1, k) == spec_hex_prefix(b2, k),
    ensures
        forall|j: int| 0 <= j < k ==> nibble(b1, j) == nibble(b2, j),
    decreases k,
{
    if k > 0 {
        let p1 = spec_hex_prefix(b1, k - 1);
        let p2 = spec_hex_prefix(b2, k - 1);
        let n1 = nibble(b1, k - 1);
        let n2 = nibble(b2, k - 1);
        assert(n1 < 16 && n2 < 16) by {
            let sh = (((15 - (k - 1)) * 4) as u64);
            assert((b1 >> sh) & 0xf < 16) by (bit_vector);
            assert((b2 >> sh) & 0xf < 16) by (bit_vector);
        }
        lemma_hex_prefix_len(b1, k - 1);
        lemma_hex_prefix_len(b2, k - 1);
        lemma_hex_digit_injective(n1, n2);
        lemma_hex_digit_injective(n2, n1);
        assert(p1 =~= (p1 + hex_digit(n1)).subrange(0, k - 1));
        assert(p2 =~= (p2 + hex_digit(n2)).subrange(0, k - 1));
        assert(hex_digit(n1) =~= (p1 + hex_digit(n1)).subrange(k - 1, k));
        assert(hex_digit(n2) =~= (p2 + hex_digit(n2)).subrange(k - 1, k));
        assert(p1 == p2);
        assert(hex_digit(n1) == hex_digit(n2));
        lemma_hex_prefix_injective(b1, b2, k - 1);
    }
}

/// The rendering is lossless: scalars with equal renderings hold the same
/// bit pattern, so a rendered summary pins the stored value exactly.
pub proof fn lemma_scalar_hex_injective(b1: u64, b2: u64)
    requires
        spec_scalar_hex(b1) == spec_scalar_hex(b2),
    ensures
        b1 == b2,
{
    reveal_strlit("0x");
    lemma_hex_prefix_len(b1, 16);
    lemma_hex_prefix_len(b2, 16);
    assert(spec_hex_prefix(b1, 16) =~= spec_scalar_hex(b1).subrange(2, 18));
    assert(spec_hex_prefix(b2, 16) =~= spec_scalar_hex(b2).subrange(2, 18));
    lemma_hex_prefix_injective(b1, b2, 16);
    assert(nibble(b1, 0) == nibble(b2, 0));
    assert(nibble(b1, 1) == nibble(b2, 1));
    assert(nibble(b1, 2) == nibble(b2, 2));
    assert(nibble(b1, 3) == nibble(b2, 3));
    assert(nibble(b1, 4) == nibble(b2, 4));
    assert(nibble(b1, 5) == nibble(b2, 5));
    assert(nibble(b1, 6) == nibble(b2, 6));
    assert(nibble(b1, 7) == nibble(b2, 7));
    assert(nibble(b1, 8) == nibble(b2, 8));
    assert(nibble(b1, 9) == nibble(b2, 9));
    assert(nibble(b1, 10) == nibble(b2, 10));
    assert(nibble(b1, 11) == nibble(b2, 11));
    assert(nibble(b1, 12) == nibble(b2, 12));
    assert(nibble(b1, 13) == nibble(b2, 13));
    assert(nibble(b1, 14) == nibble(b2, 14));
    assert(nibble(b1, 15) == nibble(b2, 15));
    assert(b1 == b2) by (bit_vector)
        requires
            (b1 >> 60) & 0xf == (b2 >> 60) & 0xf,
            (b1 >> 56) & 0xf == (b2 >> 56) & 0xf,
            (b1 >> 52) & 0xf == (b2 >> 52) & 0xf,
            (b1 >> 48) & 0xf == (b2 >> 48) & 0xf,
            (b1 >> 44) & 0xf == (b2 >> 44) & 0xf,
            (b1 >> 40) & 0xf == (b2 >> 40) & 0xf,
            (b1 >> 36) & 0xf == (b2 >> 36) & 0xf,
            (b1 >> 32) & 0xf == (b2 >> 32) & 0xf,
            (b1 >> 28) & 0xf == (b2 >> 28) & 0xf,
            (b1 >> 24) & 0xf == (b2 >> 24) & 0xf,
            (b1 >> 20) & 0xf == (b2 >> 20) & 0xf,
            (b1 >> 16) & 0xf == (b2 >> 16) & 0xf,
            (b1 >> 12) & 0xf == (b2 >> 12) & 0xf,
            (b1 >> 8) & 0xf == (b2 >> 8) & 0xf,
            (b1 >> 4) & 0xf == (b2 >> 4) & 0xf,
            (b1 >> 0) & 0xf == (b2 >> 0) & 0xf,
    ;
}

/// Renders a scalar as the hexadecimal of its bit pattern.
pub fn scalar_hex(bits: Scalar) -> (r: String)
    ensures
        r@ == spec_scalar_hex(bits),
{
    let mut s = String::from_str("0x");
    let mut j: usize = 0;
    while j < 16
        invariant
            j <= 16,
            s@ == "0x"@ + spec_hex_prefix(bits, j as int),
        decreases 16 - j,
    {
        let sh: u64 = (15 - j as u64) * 4;
        let n: u64 = (bits >> sh) & 0xf;
        proof {
            assert(n == nibble(bits, j as int));
            assert((bits >> sh) & 0xf <= 15) by (bit_vector);
        }
        let d: &str = if n == 0 {
            "0"
        } else if n == 1 {
            "1"
        } else if n == 2 {
            "2"
        } else if n == 3 {
            "3"
        } else if n == 4 {
            "4"
        } else if n == 5 {
            "5"
        } else if n == 6 {
            "6"
        } else if n == 7 {
            "7"
        } else if n == 8 {
            "8"
        } else if n == 9 {
            "9"
        } else if n == 10 {
            "a"
        } else if n == 11 {
            "b"
        } else if n == 12 {
            "c"
        } else if n == 13 {
            "d"
        } else if n == 14 {
            "e"
        } else {
            "f"
        };
        assert(d@ == hex_digit(n));
        s.append(d);
        proof {
            assert(("0x"@ + spec_hex_prefix(bits, j as int)) + hex_digit(nibble(bits, j as int))
                =~= "0x"@ + spec_hex_prefix(bits, j as int + 1));
        }
        j += 1;
    }
    s
}

} // verus!
