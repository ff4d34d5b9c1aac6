//! The cardinal formatter: every fixed-width integer to its written
//! counting form, proved to produce exactly the text of the model.

use vstd::prelude::*;

verus! {

use crate::text::cardinal_of;
use crate::text::cardinal_text;
use crate::text::compose_text;
use crate::text::doublet_text;
use crate::text::lemma_pow1000_pos;
use crate::text::lemma_scale_index_bounds;
use crate::text::lemma_scale_index_nonneg;
use crate::text::lemma_u64_scale_index;
use crate::text::pow1000;
use crate::text::scale_index;
use crate::text::triplet_text;
use crate::words::scale_str;
use crate::words::tens_str;
use crate::words::unit_str;

/// Appends the written form of a doublet in `[1, 99]` to a cardinal in
/// construction.
pub fn push_doublet(n: u64, cardinal: &mut String)
    requires
        1 <= n < 100,
    ensures
        final(cardinal)@ == old(cardinal)@ + doublet_text(n as int),
{
    if n < 20 {
        cardinal.append(unit_str(n));
    } else {
        let tens: u64 = n / 10;
        let ones: u64 = n % 10;
        cardinal.append(tens_str(tens));
        if ones != 0 {
            cardinal.append("-");
            cardinal.append(unit_str(ones));
        }
        proof {
            assert(cardinal@ =~= old(cardinal)@ + doublet_text(n as int));
        }
    }
}

/// Appends the written form of a triplet in `[1, 999]` to a cardinal in
/// construction.
pub fn push_triplet(n: u64, cardinal: &mut String)
    requires
        1 <= n < 1000,
    ensures
        final(cardinal)@ == old(cardinal)@ + triplet_text(n as int),
{
    let hundreds: u64 = n / 100;
    let rest: u64 = n % 100;
    if hundreds != 0 {
        cardinal.append(unit_str(hundreds));
        if rest == 0 {
            cardinal.append(" hundred");
            return;
        }
        cardinal.append(" hundred ");
    }
    push_doublet(rest, cardinal);
    proof {
        assert(cardinal@ =~= old(cardinal)@ + triplet_text(n as int));
    }
}

/// `1000^k` as a machine word; `k` is capped where the value still fits.
pub(crate) fn pow1000_u64(k: u32) -> (r: u64)
    requires
        k <= 6,
    ensures
        r as int == pow1000(k as int),
{
    proof {
        reveal_with_fuel(pow1000, 8);
    }
    if k == 0 {
        1
    } else if k == 1 {
        1000
    } else if k == 2 {
        1000000
    } else if k == 3 {
        1000000000
    } else if k == 4 {
        1000000000000
    } else if k == 5 {
        1000000000000000
    } else {
        1000000000000000000
    }
}

/// The highest group index a nonzero magnitude needs, derived by exact
/// integer division rather than a floating-point logarithm, which could
/// misclassify a power-of-ten boundary.
pub(crate) fn scale_order(n: u64) -> (k: u32)
    requires
        1 <= n,
    ensures
        k as int == scale_index(n as int),
        k <= 6,
{
    proof {
        lemma_u64_scale_index(n);
    }
    let mut k: u32 = 0;
    let mut m: u64 = n;
    while m >= 1000
        invariant
            1 <= m,
            scale_index(n as int) == k as int + scale_index(m as int),
            scale_index(n as int) <= 6,
        decreases m,
    {
        proof {
            lemma_scale_index_nonneg(m as int / 1000);
        }
        m = m / 1000;
        k = k + 1;
    }
    proof {
        lemma_scale_index_nonneg(m as int);
    }
    k
}

/// Appends the written form of a nonzero 64-bit magnitude to a cardinal in
/// construction, from group `multiple_order` down; the order must be high
/// enough that the magnitude fits below `1000^(multiple_order + 1)`.
pub fn compose_cardinal_int(n: u64, multiple_order: u32, cardinal: &mut String)
    requires
        1 <= n,
        multiple_order <= 6,
        (n as int) < pow1000(multiple_order as int + 1),
    ensures
        final(cardinal)@ == old(cardinal)@ + compose_text(n as int, multiple_order as int),
    decreases multiple_order,
{
    if multiple_order == 0 {
        proof {
            assert(pow1000(1) == 1000) by {
                reveal_with_fuel(pow1000, 2);
            }
        }
        push_triplet(n, cardinal);
        return;
    }
    let multiplier: u64 = pow1000_u64(multiple_order);
    let multiplicand: u64 = n / multiplier;
    let rest: u64 = n % multiplier;
    proof {
        lemma_pow1000_pos(multiple_order as int - 1);
        assert(pow1000(multiple_order as int) == 1000 * pow1000(multiple_order as int - 1));
        vstd::arithmetic::div_mod::lemma_fundamental_div_mod(n as int, multiplier as int);
        vstd::arithmetic::div_mod::lemma_mod_bound(n as int, multiplier as int);
        assert((n as int) / (multiplier as int) < 1000) by (nonlinear_arith)
            requires
                (n as int) < 1000 * (multiplier as int),
                multiplier as int >= 1,
                n as int >= 0,
        ;
    }
    if multiplicand == 0 {
        proof {
            assert((multiplier as int) * (multiplicand as int) == 0) by (nonlinear_arith)
                requires
                    multiplicand == 0,
            ;
            assert(n as int == (multiplier as int) * (multiplicand as int) + (n as int) % (
            multiplier as int));
            assert((n as int) < multiplier as int);
        }
        compose_cardinal_int(n, multiple_order - 1, cardinal);
    } else {
        push_triplet(multiplicand, cardinal);
        cardinal.append(" ");
        cardinal.append(scale_str(multiple_order));
        if rest != 0 {
            cardinal.append(" ");
            compose_cardinal_int(rest, multiple_order - 1, cardinal);
        }
        proof {
            assert(cardinal@ =~= old(cardinal)@
                + compose_text(n as int, multiple_order as int));
        }
    }
}

/// Returns the written cardinal form of a 64-bit magnitude with its sign
/// flag: "zero" for zero, and otherwise the composed groups, prefixed
/// with "minus " when the flag is set.
pub fn cardinal_int(n: u64, negative: bool) -> (r: String)
    ensures
        r@ == cardinal_text(n as int, negative),
{
    if n == 0 {
        return "zero".to_owned();
    }
    let multiple_order: u32 = scale_order(n);
    proof {
        lemma_scale_index_bounds(n as int);
    }
    let mut cardinal = String::new();
    if negative {
        cardinal.append("minus ");
    }
    compose_cardinal_int(n, multiple_order, &mut cardinal);
    proof {
        assert(cardinal@ =~= cardinal_text(n as int, negative));
    }
    cardinal
}

/// Provides the cardinal written form of a number.
pub trait Cardinal {
    /// The numeric value of `self`, as an unbounded integer.
    spec fn value(&self) -> int;

    /// Yields the cardinal form of a number.
    fn cardinal(&self) -> (r: String)
        ensures
            r@ == cardinal_of(self.value()),
    ;
}

impl Cardinal for u8 {
    open spec fn value(&self) -> int {
        *self as int
    }

    fn cardinal(&self) -> (r: String) {
        cardinal_int(*self as u64, false)
    }
}

impl Cardinal for u16 {
    open spec fn value(&self) -> int {
        *self as int
    }

    fn cardinal(&self) -> (r: String) {
        cardinal_int(*self as u64, false)
    }
}

impl Cardinal for u32 {
    open spec fn value(&self) -> int {
        *self as int
    }

    fn cardinal(&self) -> (r: String) {
        cardinal_int(*self as u64, false)
    }
}

impl Cardinal for u64 {
    open spec fn value(&self) -> int {
        *self as int
    }

    fn cardinal(&self) -> (r: String) {
        cardinal_int(*self, false)
    }
}

impl Cardinal for usize {
    open spec fn value(&self) -> int {
        *self as int
    }

    fn cardinal(&self) -> (r: String) {
        cardinal_int(*self as u64, false)
    }
}

impl Cardinal for i8 {
    open spec fn value(&self) -> int {
        *self as int
    }

    fn cardinal(&self) -> (r: String) {
        let wide: i64 = *self as i64;
        let magnitude: u64 = if wide < 0 {
            (-wide) as u64
        } else {
            wide as u64
        };
        cardinal_int(magnitude, wide < 0)
    }
}

impl Cardinal for i16 {
    open spec fn value(&self) -> int {
        *self as int
    }

    fn cardinal(&self) -> (r: String) {
        let wide: i64 = *self as i64;
        let magnitude: u64 = if wide < 0 {
            (-wide) as u64
        } else {
            wide as u64
        };
        cardinal_int(magnitude, wide < 0)
    }
}

impl Cardinal for i32 {
    open spec fn value(&self) -> int {
        *self as int
    }

    fn cardinal(&self) -> (r: String) {
        let wide: i64 = *self as i64;
        let magnitude: u64 = if wide < 0 {
            (-wide) as u64
        } else {
            wide as u64
        };
        cardinal_int(magnitude, wide < 0)
    }
}

impl Cardinal for i64 {
    open spec fn value(&self) -> int {
        *self as int
    }

    fn cardinal(&self) -> (r: String) {
        // The minimum value cannot be negated in its own width; its
        // magnitude is written out directly.
        let magnitude: u64 = if *self == i64::MIN {
            9223372036854775808u64
        } else if *self < 0 {
            (-*self) as u64
        } else {
            *self as u64
        };
        cardinal_int(magnitude, *self < 0)
    }
}

impl Cardinal for isize {
    open spec fn value(&self) -> int {
        *self as int
    }

    fn cardinal(&self) -> (r: String) {
        let wide: i64 = *self as i64;
        let magnitude: u64 = if wide == i64::MIN {
            9223372036854775808u64
        } else if wide < 0 {
            (-wide) as u64
        } else {
            wide as u64
        };
        cardinal_int(magnitude, wide < 0)
    }
}

} // verus!
