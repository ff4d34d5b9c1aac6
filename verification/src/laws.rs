//! Laws of the written forms, each proved once and for all inputs: the
//! single-word range, the sign prefix, the silence of zero groups, and the
//! relation between the cardinal and the ordinal text.

use vstd::prelude::*;

verus! {

use crate::text::cardinal_of;
use crate::text::cardinal_text;
use crate::text::compose_ordinal_text;
use crate::text::compose_text;
use crate::text::doublet_ordinal_text;
use crate::text::doublet_text;
use crate::text::lemma_pow1000_pos;
use crate::text::lemma_scale_index_bounds;
use crate::text::lemma_scale_index_nonneg;
use crate::text::ordinal_of;
use crate::text::ordinal_text;
use crate::text::pow1000;
use crate::text::scale_index;
use crate::text::triplet_ordinal_text;
use crate::text::triplet_text;
use crate::words::lemma_scale_word_plain;
use crate::words::lemma_small_word_not_scale_word;
use crate::words::lemma_tens_word_shape;
use crate::words::lemma_unit_word_shape;
use crate::words::scale_ordinal_word;
use crate::words::scale_word;
use crate::words::tens_ordinal_word;
use crate::words::tens_word;
use crate::words::unit_ordinal_word;
use crate::words::unit_word;

/// Below twenty, the cardinal form is the single word of the table.
pub proof fn lemma_single_word_below_twenty(n: int)
    requires
        0 <= n < 20,
    ensures
        cardinal_text(n, false) == unit_word(n),
{
}

/// The written form of a negative value is the written form of its
/// magnitude behind the sign marker, cardinal and ordinal alike.
pub proof fn lemma_sign_is_a_prefix(n: int)
    requires
        1 <= n,
    ensures
        cardinal_text(n, true) == "minus "@ + cardinal_text(n, false),
        ordinal_text(n, true) == "minus "@ + ordinal_text(n, false),
{
}

/// Whether a text opens with the sign marker "minus ".
pub open spec fn has_minus_prefix(s: Seq<char>) -> bool {
    s.len() >= 6 && s.subrange(0, 6) == "minus "@
}

/// The cardinal text of a doublet is never empty and never opens with the
/// letter of the sign marker.
proof fn lemma_doublet_first_char(n: int)
    requires
        1 <= n < 100,
    ensures
        doublet_text(n).len() > 0,
        doublet_text(n)[0] != 'm',
{
    if n < 20 {
        lemma_unit_word_shape(n);
    } else {
        lemma_tens_word_shape(n / 10);
    }
}

/// The cardinal text of a triplet is never empty and never opens with the
/// letter of the sign marker.
proof fn lemma_triplet_first_char(n: int)
    requires
        1 <= n < 1000,
    ensures
        triplet_text(n).len() > 0,
        triplet_text(n)[0] != 'm',
{
    if n / 100 == 0 {
        lemma_doublet_first_char(n);
    } else {
        lemma_unit_word_shape(n / 100);
    }
}

/// The composed cardinal text of a nonzero magnitude is never empty and
/// never opens with the letter of the sign marker.
proof fn lemma_compose_first_char(n: int, k: int)
    requires
        0 <= k,
        1 <= n < pow1000(k + 1),
    ensures
        compose_text(n, k).len() > 0,
        compose_text(n, k)[0] != 'm',
    decreases k,
{
    if k <= 0 {
        assert(pow1000(1) == 1000) by {
            reveal_with_fuel(pow1000, 2);
        }
        lemma_triplet_first_char(n);
    } else {
        let p = pow1000(k);
        let group = n / p;
        let rest = n % p;
        lemma_pow1000_pos(k - 1);
        assert(pow1000(k) == 1000 * pow1000(k - 1));
        vstd::arithmetic::div_mod::lemma_fundamental_div_mod(n, p);
        vstd::arithmetic::div_mod::lemma_mod_bound(n, p);
        if group == 0 {
            assert(p * group == 0) by (nonlinear_arith)
                requires
                    group == 0,
            ;
            lemma_compose_first_char(rest, k - 1);
        } else {
            assert(group < 1000) by (nonlinear_arith)
                requires
                    n < 1000 * p,
                    p >= 1,
                    n >= 0,
                    group == n / p,
            ;
            lemma_triplet_first_char(group);
        }
    }
}

/// The written form opens with the sign marker "minus " exactly when the
/// value is strictly negative.
pub proof fn lemma_minus_prefix_iff_negative(i: int)
    ensures
        has_minus_prefix(cardinal_of(i)) <==> i < 0,
{
    reveal_strlit("minus ");
    reveal_strlit("zero");
    if i < 0 {
        assert(cardinal_of(i).subrange(0, 6) =~= "minus "@);
    } else if i == 0 {
        assert(cardinal_of(i) == "zero"@);
    } else {
        lemma_scale_index_nonneg(i);
        lemma_scale_index_bounds(i);
        lemma_compose_first_char(i, scale_index(i));
        assert(cardinal_of(i)[0] != 'm');
        if has_minus_prefix(cardinal_of(i)) {
            assert(cardinal_of(i).subrange(0, 6)[0] == cardinal_of(i)[0]);
            assert(false);
        }
    }
}

/// A zero group contributes nothing: composing from a group index whose
/// group is empty gives the same text, cardinal and ordinal alike.
pub proof fn lemma_zero_group_adds_nothing(n: int, k: int)
    requires
        1 <= k,
        0 <= n < pow1000(k),
    ensures
        compose_text(n, k) == compose_text(n, k - 1),
        compose_ordinal_text(n, k) == compose_ordinal_text(n, k - 1),
{
    let p = pow1000(k);
    lemma_pow1000_pos(k);
    vstd::arithmetic::div_mod::lemma_fundamental_div_mod(n, p);
    vstd::arithmetic::div_mod::lemma_mod_bound(n, p);
    assert(n / p == 0) by (nonlinear_arith)
        requires
            0 <= n < p,
    ;
    assert(p * (n / p) == 0) by (nonlinear_arith)
        requires
            n / p == 0,
    ;
}

/// Composing from any group index at or above the magnitude's own gives
/// the same text as composing from the magnitude's own index: groups above
/// the leading one add no words.
pub proof fn lemma_order_above_scale_irrelevant(n: int, k: int)
    requires
        1 <= n,
        scale_index(n) <= k,
    ensures
        compose_text(n, k) == compose_text(n, scale_index(n)),
        compose_ordinal_text(n, k) == compose_ordinal_text(n, scale_index(n)),
    decreases k,
{
    lemma_scale_index_nonneg(n);
    if k > scale_index(n) {
        lemma_scale_index_bounds(n);
        crate::text::lemma_pow1000_mono(scale_index(n) + 1, k);
        lemma_zero_group_adds_nothing(n, k);
        lemma_order_above_scale_irrelevant(n, k - 1);
    }
}

/// Whether a fragment is one of the scale words.
pub open spec fn is_scale_word(f: Seq<char>) -> bool {
    exists|k: int| 1 <= k <= 8 && f == scale_word(k)
}

/// The cardinal text of a doublet is never a scale word.
proof fn lemma_doublet_not_scale_word(d: int, k: int)
    requires
        1 <= d < 100,
        1 <= k,
    ensures
        doublet_text(d) != scale_word(k),
{
    lemma_scale_word_plain(k);
    if d < 20 {
        lemma_small_word_not_scale_word(d, k);
    } else if d % 10 == 0 {
        lemma_small_word_not_scale_word(d / 10, k);
    } else {
        reveal_strlit("-");
        let t = tens_word(d / 10);
        let s = doublet_text(d);
        assert(s[t.len() as int] == '-');
        if s == scale_word(k) {
            assert(scale_word(k)[t.len() as int] == '-');
            assert(false);
        }
    }
}

/// The cardinal text of a triplet is never a scale word.
proof fn lemma_triplet_not_scale_word(t: int, k: int)
    requires
        1 <= t < 1000,
        1 <= k,
    ensures
        triplet_text(t) != scale_word(k),
{
    lemma_scale_word_plain(k);
    if t / 100 == 0 {
        lemma_doublet_not_scale_word(t, k);
    } else {
        reveal_strlit(" hundred");
        reveal_strlit(" hundred ");
        let u = unit_word(t / 100);
        let s = triplet_text(t);
        assert(s[u.len() as int] == ' ');
        if s == scale_word(k) {
            assert(scale_word(k)[u.len() as int] == ' ');
            assert(false);
        }
    }
}

/// The fragments of the composed cardinal text, in emission order: each
/// nonzero group's triplet, the separators, and the scale words, one
/// fragment each. Joined, they are exactly `compose_text`.
pub open spec fn compose_frags(n: int, k: int) -> Seq<Seq<char>>
    decreases k,
{
    if k <= 0 {
        if n == 0 {
            Seq::empty()
        } else {
            seq![triplet_text(n)]
        }
    } else {
        let group = n / pow1000(k);
        let rest = n % pow1000(k);
        if group == 0 {
            compose_frags(rest, k - 1)
        } else if rest == 0 {
            seq![triplet_text(group), " "@, scale_word(k)]
        } else {
            seq![triplet_text(group), " "@, scale_word(k), " "@] + compose_frags(rest, k - 1)
        }
    }
}

/// How many of the fragments are scale words.
pub open spec fn scale_word_count(frags: Seq<Seq<char>>) -> int
    decreases frags.len(),
{
    if frags.len() == 0 {
        0
    } else {
        (if is_scale_word(frags.first()) {
            1int
        } else {
            0int
        }) + scale_word_count(frags.drop_first())
    }
}

/// Flattening a sequence of fragments with a known head splits off that
/// head.
proof fn lemma_flatten_cons(x: Seq<char>, s: Seq<Seq<char>>)
    ensures
        (seq![x] + s).flatten() == x + s.flatten(),
{
    let t = seq![x] + s;
    assert(t.first() == x);
    assert(t.drop_first() =~= s);
    assert(t.flatten() == t.first() + t.drop_first().flatten());
}

/// Counting scale words in a sequence of fragments with a known head
/// splits off that head.
proof fn lemma_count_cons(x: Seq<char>, s: Seq<Seq<char>>)
    ensures
        scale_word_count(seq![x] + s) == (if is_scale_word(x) {
            1int
        } else {
            0int
        }) + scale_word_count(s),
{
    let t = seq![x] + s;
    assert(t.first() == x);
    assert(t.drop_first() =~= s);
    assert(scale_word_count(t) == (if is_scale_word(t.first()) {
        1int
    } else {
        0int
    }) + scale_word_count(t.drop_first()));
}

/// The fragments joined are the composed text itself.
pub proof fn lemma_compose_frags_flatten(n: int, k: int)
    ensures
        compose_frags(n, k).flatten() == compose_text(n, k),
    decreases k,
{
    if k <= 0 {
        if n == 0 {
            assert(compose_frags(n, k).flatten() =~= compose_text(n, k));
        } else {
            compose_frags(n, k).lemma_flatten_one_element();
        }
    } else {
        let group = n / pow1000(k);
        let rest = n % pow1000(k);
        if group == 0 {
            lemma_compose_frags_flatten(rest, k - 1);
        } else if rest == 0 {
            let a = triplet_text(group);
            let b = " "@;
            let w = scale_word(k);
            assert(seq![a, b, w] =~= seq![a] + (seq![b] + seq![w]));
            lemma_flatten_cons(a, seq![b] + seq![w]);
            lemma_flatten_cons(b, seq![w]);
            seq![w].lemma_flatten_one_element();
            assert(compose_frags(n, k).flatten() == a + (b + w));
            assert(a + (b + w) =~= compose_text(n, k));
        } else {
            lemma_compose_frags_flatten(rest, k - 1);
            let a = triplet_text(group);
            let b = " "@;
            let w = scale_word(k);
            let tail = compose_frags(rest, k - 1);
            assert(seq![a, b, w, b] + tail =~= seq![a] + (seq![b] + (seq![w] + (seq![b]
                + tail))));
            lemma_flatten_cons(a, seq![b] + (seq![w] + (seq![b] + tail)));
            lemma_flatten_cons(b, seq![w] + (seq![b] + tail));
            lemma_flatten_cons(w, seq![b] + tail);
            lemma_flatten_cons(b, tail);
            assert(compose_frags(n, k).flatten() == a + (b + (w + (b + tail.flatten()))));
            assert(a + (b + (w + (b + compose_text(rest, k - 1)))) =~= compose_text(n, k));
        }
    }
}

/// Whether every group of three decimal digits of the magnitude, from
/// group `k` down to group one, is nonzero.
pub open spec fn groups_nonzero(n: int, k: int) -> bool
    decreases k,
{
    if k <= 0 {
        true
    } else {
        n / pow1000(k) != 0 && groups_nonzero(n % pow1000(k), k - 1)
    }
}

/// With every group nonzero, composing from group `k` emits exactly `k`
/// scale words.
proof fn lemma_count_when_groups_nonzero(n: int, k: int)
    requires
        0 <= k,
        0 <= n < pow1000(k + 1),
        groups_nonzero(n, k),
    ensures
        scale_word_count(compose_frags(n, k)) == k,
    decreases k,
{
    if k <= 0 {
        if n != 0 {
            assert(pow1000(1) == 1000) by {
                reveal_with_fuel(pow1000, 2);
            }
            assert forall|k2: int| 1 <= k2 <= 8 implies triplet_text(n) != scale_word(k2) by {
                lemma_triplet_not_scale_word(n, k2);
            }
            assert(!is_scale_word(triplet_text(n)));
            lemma_count_cons(triplet_text(n), Seq::<Seq<char>>::empty());
            assert(seq![triplet_text(n)] =~= seq![triplet_text(n)] + Seq::<Seq<char>>::empty());
        }
    } else {
        let p = pow1000(k);
        let group = n / p;
        let rest = n % p;
        lemma_pow1000_pos(k - 1);
        assert(pow1000(k) == 1000 * pow1000(k - 1));
        vstd::arithmetic::div_mod::lemma_fundamental_div_mod(n, p);
        vstd::arithmetic::div_mod::lemma_mod_bound(n, p);
        assert(group != 0);
        assert(1 <= group < 1000) by (nonlinear_arith)
            requires
                0 <= n < 1000 * p,
                p >= 1,
                group == n / p,
                group != 0,
        ;
        assert forall|k2: int| 1 <= k2 <= 8 implies triplet_text(group) != scale_word(k2) by {
            lemma_triplet_not_scale_word(group, k2);
        }
        assert(!is_scale_word(triplet_text(group)));
        reveal_strlit(" ");
        assert(" "@.len() == 1);
        assert forall|k2: int| 1 <= k2 <= 8 implies " "@ != scale_word(k2) by {
            lemma_scale_word_plain(k2);
        }
        assert(!is_scale_word(" "@));
        let w = if k <= 8 {
            k
        } else {
            8
        };
        assert(scale_word(k) == scale_word(w));
        assert(is_scale_word(scale_word(k)));
        if rest == 0 {
            if k > 1 {
                reveal_with_fuel(groups_nonzero, 2);
                assert(0int / pow1000(k - 1) == 0) by (nonlinear_arith)
                    requires
                        pow1000(k - 1) >= 1,
                ;
                assert(false);
            }
            let a = triplet_text(group);
            let b = " "@;
            let ws = scale_word(k);
            assert(seq![a, b, ws] =~= seq![a] + (seq![b] + (seq![ws]
                + Seq::<Seq<char>>::empty())));
            lemma_count_cons(a, seq![b] + (seq![ws] + Seq::<Seq<char>>::empty()));
            lemma_count_cons(b, seq![ws] + Seq::<Seq<char>>::empty());
            lemma_count_cons(ws, Seq::<Seq<char>>::empty());
        } else {
            lemma_count_when_groups_nonzero(rest, k - 1);
            let a = triplet_text(group);
            let b = " "@;
            let ws = scale_word(k);
            let tail = compose_frags(rest, k - 1);
            assert(seq![a, b, ws, b] + tail =~= seq![a] + (seq![b] + (seq![ws] + (seq![b]
                + tail))));
            lemma_count_cons(a, seq![b] + (seq![ws] + (seq![b] + tail)));
            lemma_count_cons(b, seq![ws] + (seq![b] + tail));
            lemma_count_cons(ws, seq![b] + tail);
            lemma_count_cons(b, tail);
        }
    }
}

/// The number of scale words in the written form of a nonzero magnitude
/// whose groups of three digits are all nonzero is exactly the magnitude's
/// group index; and the fragments counted join to the written form itself.
pub proof fn lemma_scale_word_count_matches_order(n: int)
    requires
        1 <= n,
        groups_nonzero(n, scale_index(n)),
    ensures
        compose_frags(n, scale_index(n)).flatten() == cardinal_text(n, false),
        scale_word_count(compose_frags(n, scale_index(n))) == scale_index(n),
{
    lemma_scale_index_nonneg(n);
    lemma_scale_index_bounds(n);
    lemma_compose_frags_flatten(n, scale_index(n));
    lemma_count_when_groups_nonzero(n, scale_index(n));
}

/// Whether `c` and `o` are the cardinal and the ordinal form of one final
/// word: a word below twenty, a tens word, the "hundred" tail, or a scale
/// word.
pub open spec fn final_word_pair(c: Seq<char>, o: Seq<char>) -> bool {
    ||| (exists|u: int| 0 <= u < 20 && c == unit_word(u) && o == unit_ordinal_word(u))
    ||| (exists|t: int| 2 <= t <= 9 && c == tens_word(t) && o == tens_ordinal_word(t))
    ||| (c == " hundred"@ && o == " hundredth"@)
    ||| (exists|k: int| 1 <= k <= 8 && c == scale_word(k) && o == scale_ordinal_word(k))
}

/// The cardinal and the ordinal text of a doublet share everything but the
/// final word.
proof fn lemma_doublet_split(n: int) -> (r: (Seq<char>, Seq<char>, Seq<char>))
    requires
        1 <= n < 100,
    ensures
        doublet_text(n) == r.0 + r.1,
        doublet_ordinal_text(n) == r.0 + r.2,
        final_word_pair(r.1, r.2),
{
    if n < 20 {
        let r = (Seq::<char>::empty(), unit_word(n), unit_ordinal_word(n));
        assert(doublet_text(n) =~= r.0 + r.1);
        assert(doublet_ordinal_text(n) =~= r.0 + r.2);
        r
    } else if n % 10 == 0 {
        let r = (Seq::<char>::empty(), tens_word(n / 10), tens_ordinal_word(n / 10));
        assert(doublet_text(n) =~= r.0 + r.1);
        assert(doublet_ordinal_text(n) =~= r.0 + r.2);
        assert(2 <= n / 10 <= 9);
        r
    } else {
        let r = (tens_word(n / 10) + "-"@, unit_word(n % 10), unit_ordinal_word(n % 10));
        assert(doublet_text(n) =~= r.0 + r.1);
        assert(doublet_ordinal_text(n) =~= r.0 + r.2);
        assert(0 <= n % 10 < 20);
        r
    }
}

/// The cardinal and the ordinal text of a triplet share everything but the
/// final word.
proof fn lemma_triplet_split(n: int) -> (r: (Seq<char>, Seq<char>, Seq<char>))
    requires
        1 <= n < 1000,
    ensures
        triplet_text(n) == r.0 + r.1,
        triplet_ordinal_text(n) == r.0 + r.2,
        final_word_pair(r.1, r.2),
{
    if n / 100 == 0 {
        lemma_doublet_split(n)
    } else if n % 100 == 0 {
        let r = (unit_word(n / 100), " hundred"@, " hundredth"@);
        assert(triplet_text(n) =~= r.0 + r.1);
        assert(triplet_ordinal_text(n) =~= r.0 + r.2);
        r
    } else {
        let d = lemma_doublet_split(n % 100);
        let r = (unit_word(n / 100) + " hundred "@ + d.0, d.1, d.2);
        assert(triplet_text(n) =~= r.0 + r.1);
        assert(triplet_ordinal_text(n) =~= r.0 + r.2);
        r
    }
}

/// The cardinal and the ordinal text of a composed magnitude share
/// everything but the final word.
proof fn lemma_compose_split(n: int, k: int) -> (r: (Seq<char>, Seq<char>, Seq<char>))
    requires
        0 <= k,
        1 <= n < pow1000(k + 1),
    ensures
        compose_text(n, k) == r.0 + r.1,
        compose_ordinal_text(n, k) == r.0 + r.2,
        final_word_pair(r.1, r.2),
    decreases k,
{
    if k <= 0 {
        assert(pow1000(1) == 1000) by {
            reveal_with_fuel(pow1000, 2);
        }
        lemma_triplet_split(n)
    } else {
        let p = pow1000(k);
        let group = n / p;
        let rest = n % p;
        lemma_pow1000_pos(k - 1);
        assert(pow1000(k) == 1000 * pow1000(k - 1));
        vstd::arithmetic::div_mod::lemma_fundamental_div_mod(n, p);
        vstd::arithmetic::div_mod::lemma_mod_bound(n, p);
        if group == 0 {
            assert(p * group == 0) by (nonlinear_arith)
                requires
                    group == 0,
            ;
            lemma_compose_split(rest, k - 1)
        } else {
            assert(group < 1000) by (nonlinear_arith)
                requires
                    n < 1000 * p,
                    p >= 1,
                    n >= 0,
                    group == n / p,
            ;
            if rest == 0 {
                let w = if k <= 8 {
                    k
                } else {
                    8
                };
                let r = (triplet_text(group) + " "@, scale_word(k), scale_ordinal_word(k));
                assert(compose_text(n, k) =~= r.0 + r.1);
                assert(compose_ordinal_text(n, k) =~= r.0 + r.2);
                assert(scale_word(k) == scale_word(w) && scale_ordinal_word(k)
                    == scale_ordinal_word(w));
                r
            } else {
                let c = lemma_compose_split(rest, k - 1);
                let r = (
                    triplet_text(group) + " "@ + scale_word(k) + " "@ + c.0,
                    c.1,
                    c.2,
                );
                assert(compose_text(n, k) =~= r.0 + r.1);
                assert(compose_ordinal_text(n, k) =~= r.0 + r.2);
                r
            }
        }
    }
}

/// The ordinal form changes only the final word: the cardinal and the
/// ordinal text of any value share one prefix, and end in the cardinal and
/// the ordinal form of one and the same final word.
pub proof fn lemma_ordinal_changes_only_final_word(i: int) -> (r: (
    Seq<char>,
    Seq<char>,
    Seq<char>,
))
    ensures
        cardinal_of(i) == r.0 + r.1,
        ordinal_of(i) == r.0 + r.2,
        final_word_pair(r.1, r.2),
{
    if i == 0 {
        let r = (Seq::<char>::empty(), "zero"@, "zeroth"@);
        assert(cardinal_of(i) =~= r.0 + r.1);
        assert(ordinal_of(i) =~= r.0 + r.2);
        assert(unit_word(0) == "zero"@ && unit_ordinal_word(0) == "zeroth"@);
        r
    } else {
        let n = if i < 0 {
            -i
        } else {
            i
        };
        lemma_scale_index_nonneg(n);
        lemma_scale_index_bounds(n);
        let c = lemma_compose_split(n, scale_index(n));
        if i < 0 {
            let r = ("minus "@ + c.0, c.1, c.2);
            assert(cardinal_of(i) =~= r.0 + r.1);
            assert(ordinal_of(i) =~= r.0 + r.2);
            r
        } else {
            c
        }
    }
}

} // verus!
