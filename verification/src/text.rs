//! The text model: what the written form of a number is, as a specification
//! over sequences of characters.
//!
//! A magnitude is split into groups of three decimal digits. The lowest
//! group is rendered alone; every higher, nonzero group is rendered followed
//! by its scale word. Within a group, a value below one hundred is a
//! "doublet" (tens and units); a full group is a "triplet" (hundreds,
//! then a doublet).

use vstd::prelude::*;

verus! {

use crate::words::scale_ordinal_word;
use crate::words::scale_word;
use crate::words::tens_ordinal_word;
use crate::words::tens_word;
use crate::words::unit_ordinal_word;
use crate::words::unit_word;

/// `1000^k` for `k >= 0`, and `1` below that.
pub open spec fn pow1000(k: int) -> int
    decreases k,
{
    if k <= 0 {
        1
    } else {
        1000 * pow1000(k - 1)
    }
}

/// The highest group index a magnitude needs: `0` below one thousand, and
/// one more for every further factor of one thousand.
pub open spec fn scale_index(n: int) -> int
    decreases n,
{
    if n < 1000 {
        0
    } else {
        1 + scale_index(n / 1000)
    }
}

/// The cardinal text of a doublet in `[1, 99]`: a single word below twenty,
/// the tens word alone on a multiple of ten, and otherwise the tens word,
/// a hyphen and the units word.
pub open spec fn doublet_text(n: int) -> Seq<char> {
    if n < 20 {
        unit_word(n)
    } else if n % 10 == 0 {
        tens_word(n / 10)
    } else {
        tens_word(n / 10) + "-"@ + unit_word(n % 10)
    }
}

/// The cardinal text of a triplet in `[1, 999]`: the hundreds digit's word
/// and " hundred" when there are hundreds, then the doublet of the rest,
/// separated by a single space.
pub open spec fn triplet_text(n: int) -> Seq<char> {
    if n / 100 == 0 {
        doublet_text(n)
    } else if n % 100 == 0 {
        unit_word(n / 100) + " hundred"@
    } else {
        unit_word(n / 100) + " hundred "@ + doublet_text(n % 100)
    }
}

/// The cardinal text of a magnitude in `[1, 1000^(k+1))`, composed from
/// group `k` down: a zero group contributes nothing, every nonzero group
/// above the lowest contributes its triplet and its scale word, and a
/// space separates it from whatever follows.
pub open spec fn compose_text(n: int, k: int) -> Seq<char>
    decreases k,
{
    if k <= 0 {
        if n == 0 {
            Seq::empty()
        } else {
            triplet_text(n)
        }
    } else {
        let group = n / pow1000(k);
        let rest = n % pow1000(k);
        if group == 0 {
            compose_text(rest, k - 1)
        } else if rest == 0 {
            triplet_text(group) + " "@ + scale_word(k)
        } else {
            triplet_text(group) + " "@ + scale_word(k) + " "@ + compose_text(rest, k - 1)
        }
    }
}

/// The cardinal text of a magnitude with its sign flag: "zero" for zero,
/// and otherwise the composed groups, prefixed with "minus " when the
/// flag is set.
pub open spec fn cardinal_text(n: int, negative: bool) -> Seq<char> {
    if n == 0 {
        "zero"@
    } else if negative {
        "minus "@ + compose_text(n, scale_index(n))
    } else {
        compose_text(n, scale_index(n))
    }
}

/// The cardinal text of a signed value: its magnitude's text, with the sign
/// flag set exactly when the value is strictly negative.
pub open spec fn cardinal_of(i: int) -> Seq<char> {
    if i < 0 {
        cardinal_text(-i, true)
    } else {
        cardinal_text(i, false)
    }
}

/// The ordinal text of a doublet in `[1, 99]`: as the cardinal text, but
/// the last word takes its ordinal form.
pub open spec fn doublet_ordinal_text(n: int) -> Seq<char> {
    if n < 20 {
        unit_ordinal_word(n)
    } else if n % 10 == 0 {
        tens_ordinal_word(n / 10)
    } else {
        tens_word(n / 10) + "-"@ + unit_ordinal_word(n % 10)
    }
}

/// The ordinal text of a triplet in `[1, 999]`: as the cardinal text, but
/// the last word takes its ordinal form — " hundredth" when the doublet
/// is zero, and an ordinal doublet otherwise.
pub open spec fn triplet_ordinal_text(n: int) -> Seq<char> {
    if n / 100 == 0 {
        doublet_ordinal_text(n)
    } else if n % 100 == 0 {
        unit_word(n / 100) + " hundredth"@
    } else {
        unit_word(n / 100) + " hundred "@ + doublet_ordinal_text(n % 100)
    }
}

/// The ordinal text of a magnitude in `[1, 1000^(k+1))`: as the cardinal
/// text, but the last word takes its ordinal form — the scale word itself
/// when everything below the last nonzero group is zero.
pub open spec fn compose_ordinal_text(n: int, k: int) -> Seq<char>
    decreases k,
{
    if k <= 0 {
        if n == 0 {
            Seq::empty()
        } else {
            triplet_ordinal_text(n)
        }
    } else {
        let group = n / pow1000(k);
        let rest = n % pow1000(k);
        if group == 0 {
            compose_ordinal_text(rest, k - 1)
        } else if rest == 0 {
            triplet_text(group) + " "@ + scale_ordinal_word(k)
        } else {
            triplet_text(group) + " "@ + scale_word(k) + " "@
                + compose_ordinal_text(rest, k - 1)
        }
    }
}

/// The ordinal text of a magnitude with its sign flag.
pub open spec fn ordinal_text(n: int, negative: bool) -> Seq<char> {
    if n == 0 {
        "zeroth"@
    } else if negative {
        "minus "@ + compose_ordinal_text(n, scale_index(n))
    } else {
        compose_ordinal_text(n, scale_index(n))
    }
}

/// The ordinal text of a signed value: its magnitude's text, with the sign
/// flag set exactly when the value is strictly negative.
pub open spec fn ordinal_of(i: int) -> Seq<char> {
    if i < 0 {
        ordinal_text(-i, true)
    } else {
        ordinal_text(i, false)
    }
}

/// `1000^k` is always positive.
pub proof fn lemma_pow1000_pos(k: int)
    ensures
        pow1000(k) >= 1,
    decreases k,
{
    if k > 0 {
        lemma_pow1000_pos(k - 1);
    }
}

/// `1000^k` does not shrink as `k` grows.
pub proof fn lemma_pow1000_mono(a: int, b: int)
    requires
        a <= b,
    ensures
        pow1000(a) <= pow1000(b),
    decreases b - a,
{
    if a < b {
        lemma_pow1000_mono(a, b - 1);
        lemma_pow1000_pos(b - 1);
    }
}

/// The group index of a magnitude is never negative.
pub proof fn lemma_scale_index_nonneg(n: int)
    ensures
        scale_index(n) >= 0,
    decreases n,
{
    if n >= 1000 {
        lemma_scale_index_nonneg(n / 1000);
    }
}

/// A magnitude of group index `s` lies in `[1000^s, 1000^(s+1))`.
pub proof fn lemma_scale_index_bounds(n: int)
    requires
        n >= 1,
    ensures
        pow1000(scale_index(n)) <= n < pow1000(scale_index(n) + 1),
    decreases n,
{
    if n < 1000 {
        assert(pow1000(1) == 1000) by {
            reveal_with_fuel(pow1000, 2);
        }
    } else {
        let q = n / 1000;
        assert(n == 1000 * q + n % 1000) by {
            vstd::arithmetic::div_mod::lemma_fundamental_div_mod(n, 1000);
        }
        lemma_scale_index_bounds(q);
        let s = scale_index(q);
        lemma_scale_index_nonneg(q);
        assert(pow1000(s + 1) == 1000 * pow1000(s));
        assert(pow1000(s + 2) == 1000 * pow1000(s + 1));
    }
}

/// A magnitude below `1000^(k+1)` has group index at most `k`.
pub proof fn lemma_scale_index_le(n: int, k: int)
    requires
        0 <= k,
        n < pow1000(k + 1),
    ensures
        scale_index(n) <= k,
    decreases n,
{
    if n >= 1000 {
        assert(pow1000(k + 1) == 1000 * pow1000(k));
        let q = n / 1000;
        assert(n == 1000 * q + n % 1000) by {
            vstd::arithmetic::div_mod::lemma_fundamental_div_mod(n, 1000);
        }
        if k == 0 {
            assert(pow1000(1) == 1000) by {
                reveal_with_fuel(pow1000, 2);
            }
            assert(false);
        }
        assert(q < pow1000(k));
        lemma_scale_index_le(q, k - 1);
    }
}

/// Every 64-bit magnitude fits below `1000^7`, so its group index is at
/// most six.
pub proof fn lemma_u64_scale_index(n: u64)
    ensures
        scale_index(n as int) <= 6,
        (n as int) < pow1000(7),
{
    assert(pow1000(7) == 1000000000000000000000) by {
        reveal_with_fuel(pow1000, 8);
    }
    lemma_scale_index_le(n as int, 6);
}

} // verus!
