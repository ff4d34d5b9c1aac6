//! The ordinal formatter: every fixed-width integer to its written ranking
//! form. Only the final word of the cardinal text changes form: "twenty-one"
//! becomes "twenty-first", "one thousand" becomes "one thousandth".

use vstd::prelude::*;

verus! {

use crate::cardinal::pow1000_u64;
use crate::cardinal::push_triplet;
use crate::cardinal::scale_order;
use crate::text::compose_ordinal_text;
use crate::text::doublet_ordinal_text;
use crate::text::lemma_pow1000_pos;
use crate::text::lemma_scale_index_bounds;
use crate::text::ordinal_of;
use crate::text::ordinal_text;
use crate::text::pow1000;
use crate::text::scale_index;
use crate::text::triplet_ordinal_text;
use crate::words::scale_ordinal_str;
use crate::words::scale_str;
use crate::words::tens_ordinal_str;
use crate::words::tens_str;
use crate::words::unit_ordinal_str;
use crate::words::unit_str;

/// Appends the written ordinal form of a doublet in `[1, 99]` to an
/// ordinal in construction.
pub fn push_doublet_ordinal(n: u64, ordinal: &mut String)
    requires
        1 <= n < 100,
    ensures
        final(ordinal)@ == old(ordinal)@ + doublet_ordinal_text(n as int),
{
    if n < 20 {
        ordinal.append(unit_ordinal_str(n));
    } else {
        let tens: u64 = n / 10;
        let ones: u64 = n % 10;
        if ones == 0 {
            ordinal.append(tens_ordinal_str(tens));
        } else {
            ordinal.append(tens_str(tens));
            ordinal.append("-");
            ordinal.append(unit_ordinal_str(ones));
        }
        proof {
            assert(ordinal@ =~= old(ordinal)@ + doublet_ordinal_text(n as int));
        }
    }
}

/// Appends the written ordinal form of a triplet in `[1, 999]` to an
/// ordinal in construction.
pub fn push_triplet_ordinal(n: u64, ordinal: &mut String)
    requires
        1 <= n < 1000,
    ensures
        final(ordinal)@ == old(ordinal)@ + triplet_ordinal_text(n as int),
{
    let hundreds: u64 = n / 100;
    let rest: u64 = n % 100;
    if hundreds != 0 {
        ordinal.append(unit_str(hundreds));
        if rest == 0 {
            ordinal.append(" hundredth");
            return;
        }
        ordinal.append(" hundred ");
    }
    push_doublet_ordinal(rest, ordinal);
    proof {
        assert(ordinal@ =~= old(ordinal)@ + triplet_ordinal_text(n as int));
    }
}

/// Appends the written ordinal form of a nonzero 64-bit magnitude to an
/// ordinal in construction, from group `multiple_order` down; the order
/// must be high enough that the magnitude fits below
/// `1000^(multiple_order + 1)`.
pub fn compose_ordinal_int(n: u64, multiple_order: u32, ordinal: &mut String)
    requires
        1 <= n,
        multiple_order <= 6,
        (n as int) < pow1000(multiple_order as int + 1),
    ensures
        final(ordinal)@ == old(ordinal)@ + compose_ordinal_text(n as int, multiple_order as int),
    decreases multiple_order,
{
    if multiple_order == 0 {
        proof {
            assert(pow1000(1) == 1000) by {
                reveal_with_fuel(pow1000, 2);
            }
        }
        push_triplet_ordinal(n, ordinal);
        return;
    }
    let multiplier: u64 = pow1000_u64(multiple_order);
    let multiplicand: u64 = n / multiplier;
    let rest: u64 = n % multiplier;
    proof {
        lemma_pow1000_pos(multiple_order as int - 1);
        assert(pow1000(multiple_order as int) == 1000 * pow1000(multiple_order as int - 1));
        vstd::arithmetic::div_mod::lemma_fundamental_div_mod(n as int, multiplier as int);
        vstd::arithmetic::div_mod::lemma_mod_bound(n as int, multiplier as int);
        assert((n as int) / (multiplier as int) < 1000) by (nonlinear_arith)
            requires
                (n as int) < 1000 * (multiplier as int),
                multiplier as int >= 1,
                n as int >= 0,
        ;
    }
    if multiplicand == 0 {
        proof {
            assert((multiplier as int) * (multiplicand as int) == 0) by (nonlinear_arith)
                requires
                    multiplicand == 0,
            ;
            assert(n as int == (multiplier as int) * (multiplicand as int) + (n as int) % (
            multiplier as int));
            assert((n as int) < multiplier as int);
        }
        compose_ordinal_int(n, multiple_order - 1, ordinal);
    } else {
        push_triplet(multiplicand, ordinal);
        ordinal.append(" ");
        if rest == 0 {
            ordinal.append(scale_ordinal_str(multiple_order));
        } else {
            ordinal.append(scale_str(multiple_order));
            ordinal.append(" ");
            compose_ordinal_int(rest, multiple_order - 1, ordinal);
        }
        proof {
            assert(ordinal@ =~= old(ordinal)@
                + compose_ordinal_text(n as int, multiple_order as int));
        }
    }
}

/// Returns the written ordinal form of a 64-bit magnitude with its sign
/// flag: "zeroth" for zero, and otherwise the composed groups, prefixed
/// with "minus " when the flag is set.
pub fn ordinal_int(n: u64, negative: bool) -> (r: String)
    ensures
        r@ == ordinal_text(n as int, negative),
{
    if n == 0 {
        return "zeroth".to_owned();
    }
    let multiple_order: u32 = scale_order(n);
    proof {
        lemma_scale_index_bounds(n as int);
    }
    let mut ordinal = String::new();
    if negative {
        ordinal.append("minus ");
    }
    compose_ordinal_int(n, multiple_order, &mut ordinal);
    proof {
        assert(ordinal@ =~= ordinal_text(n as int, negative));
    }
    ordinal
}

/// Provides the ordinal written form of a number.
pub trait Ordinal {
    /// The numeric value of `self`, as an unbounded integer.
    spec fn value(&self) -> int;

    /// Yields the ordinal form of a number.
    fn ordinal(&self) -> (r: String)
        ensures
            r@ == ordinal_of(self.value()),
    ;
}

impl Ordinal for u8 {
    open spec fn value(&self) -> int {
        *self as int
    }

    fn ordinal(&self) -> (r: String) {
        ordinal_int(*self as u64, false)
    }
}

impl Ordinal for u16 {
    open spec fn value(&self) -> int {
        *self as int
    }

    fn ordinal(&self) -> (r: String) {
        ordinal_int(*self as u64, false)
    }
}

impl Ordinal for u32 {
    open spec fn value(&self) -> int {
        *self as int
    }

    fn ordinal(&self) -> (r: String) {
        ordinal_int(*self as u64, false)
    }
}

impl Ordinal for u64 {
    open spec fn value(&self) -> int {
        *self as int
    }

    fn ordinal(&self) -> (r: String) {
        ordinal_int(*self, false)
    }
}

impl Ordinal for usize {
    open spec fn value(&self) -> int {
        *self as int
    }

    fn ordinal(&self) -> (r: String) {
        ordinal_int(*self as u64, false)
    }
}

impl Ordinal for i8 {
    open spec fn value(&self) -> int {
        *self as int
    }

    fn ordinal(&self) -> (r: String) {
        let wide: i64 = *self as i64;
        let magnitude: u64 = if wide < 0 {
            (-wide) as u64
        } else {
            wide as u64
        };
        ordinal_int(magnitude, wide < 0)
    }
}

impl Ordinal for i16 {
    open spec fn value(&self) -> int {
        *self as int
    }

    fn ordinal(&self) -> (r: String) {
        let wide: i64 = *self as i64;
        let magnitude: u64 = if wide < 0 {
            (-wide) as u64
        } else {
            wide as u64
        };
        ordinal_int(magnitude, wide < 0)
    }
}

impl Ordinal for i32 {
    open spec fn value(&self) -> int {
        *self as int
    }

    fn ordinal(&self) -> (r: String) {
        let wide: i64 = *self as i64;
        let magnitude: u64 = if wide < 0 {
            (-wide) as u64
        } else {
            wide as u64
        };
        ordinal_int(magnitude, wide < 0)
    }
}

impl Ordinal for i64 {
    open spec fn value(&self) -> int {
        *self as int
    }

    fn ordinal(&self) -> (r: String) {
        // The minimum value cannot be negated in its own width; its
        // magnitude is written out directly.
        let magnitude: u64 = if *self == i64::MIN {
            9223372036854775808u64
        } else if *self < 0 {
            (-*self) as u64
        } else {
            *self as u64
        };
        ordinal_int(magnitude, *self < 0)
    }
}

impl Ordinal for isize {
    open spec fn value(&self) -> int {
        *self as int
    }

    fn ordinal(&self) -> (r: String) {
        let wide: i64 = *self as i64;
        let magnitude: u64 = if wide == i64::MIN {
            9223372036854775808u64
        } else if wide < 0 {
            (-wide) as u64
        } else {
            wide as u64
        };
        ordinal_int(magnitude, wide < 0)
    }
}

} // verus!
