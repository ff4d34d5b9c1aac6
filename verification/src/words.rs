//! The word tables: the irregular words below twenty, the multiples of ten,
//! and the scale words attached to each group of three digits, in their
//! cardinal and ordinal forms.

use vstd::prelude::*;

verus! {

/// The cardinal word for a value below twenty.
pub open spec fn unit_word(n: int) -> Seq<char> {
    if n == 0 {
        "zero"@
    } else if n == 1 {
        "one"@
    } else if n == 2 {
        "two"@
    } else if n == 3 {
        "three"@
    } else if n == 4 {
        "four"@
    } else if n == 5 {
        "five"@
    } else if n == 6 {
        "six"@
    } else if n == 7 {
        "seven"@
    } else if n == 8 {
        "eight"@
    } else if n == 9 {
        "nine"@
    } else if n == 10 {
        "ten"@
    } else if n == 11 {
        "eleven"@
    } else if n == 12 {
        "twelve"@
    } else if n == 13 {
        "thirteen"@
    } else if n == 14 {
        "fourteen"@
    } else if n == 15 {
        "fifteen"@
    } else if n == 16 {
        "sixteen"@
    } else if n == 17 {
        "seventeen"@
    } else if n == 18 {
        "eighteen"@
    } else {
        "nineteen"@
    }
}

/// The ordinal word for a value below twenty.
pub open spec fn unit_ordinal_word(n: int) -> Seq<char> {
    if n == 0 {
        "zeroth"@
    } else if n == 1 {
        "first"@
    } else if n == 2 {
        "second"@
    } else if n == 3 {
        "third"@
    } else if n == 4 {
        "fourth"@
    } else if n == 5 {
        "fifth"@
    } else if n == 6 {
        "sixth"@
    } else if n == 7 {
        "seventh"@
    } else if n == 8 {
        "eighth"@
    } else if n == 9 {
        "ninth"@
    } else if n == 10 {
        "tenth"@
    } else if n == 11 {
        "eleventh"@
    } else if n == 12 {
        "twelfth"@
    } else if n == 13 {
        "thirteenth"@
    } else if n == 14 {
        "fourteenth"@
    } else if n == 15 {
        "fifteenth"@
    } else if n == 16 {
        "sixteenth"@
    } else if n == 17 {
        "seventeenth"@
    } else if n == 18 {
        "eighteenth"@
    } else {
        "nineteenth"@
    }
}

/// The cardinal word for `t` tens, for `t` in `[2, 9]`; ten itself and the
/// teens are irregular and belong to `unit_word`.
pub open spec fn tens_word(t: int) -> Seq<char> {
    if t == 2 {
        "twenty"@
    } else if t == 3 {
        "thirty"@
    } else if t == 4 {
        "forty"@
    } else if t == 5 {
        "fifty"@
    } else if t == 6 {
        "sixty"@
    } else if t == 7 {
        "seventy"@
    } else if t == 8 {
        "eighty"@
    } else {
        "ninety"@
    }
}

/// The ordinal word for `t` tens, for `t` in `[2, 9]`.
pub open spec fn tens_ordinal_word(t: int) -> Seq<char> {
    if t == 2 {
        "twentieth"@
    } else if t == 3 {
        "thirtieth"@
    } else if t == 4 {
        "fortieth"@
    } else if t == 5 {
        "fiftieth"@
    } else if t == 6 {
        "sixtieth"@
    } else if t == 7 {
        "seventieth"@
    } else if t == 8 {
        "eightieth"@
    } else {
        "ninetieth"@
    }
}

/// The scale word for the group of three digits at `1000^k`, for `k` in
/// `[1, 8]`; the lowest group carries no scale word.
pub open spec fn scale_word(k: int) -> Seq<char> {
    if k == 1 {
        "thousand"@
    } else if k == 2 {
        "million"@
    } else if k == 3 {
        "billion"@
    } else if k == 4 {
        "trillion"@
    } else if k == 5 {
        "quadrillion"@
    } else if k == 6 {
        "quintillion"@
    } else if k == 7 {
        "sextillion"@
    } else {
        "septillion"@
    }
}

/// The ordinal form of the scale word at `1000^k`, for `k` in `[1, 8]`.
pub open spec fn scale_ordinal_word(k: int) -> Seq<char> {
    if k == 1 {
        "thousandth"@
    } else if k == 2 {
        "millionth"@
    } else if k == 3 {
        "billionth"@
    } else if k == 4 {
        "trillionth"@
    } else if k == 5 {
        "quadrillionth"@
    } else if k == 6 {
        "quintillionth"@
    } else if k == 7 {
        "sextillionth"@
    } else {
        "septillionth"@
    }
}

/// Looks up the cardinal word for a value below twenty.
pub fn unit_str(n: u64) -> (r: &'static str)
    requires
        n < 20,
    ensures
        r@ == unit_word(n as int),
{
    if n == 0 {
        "zero"
    } else if n == 1 {
        "one"
    } else if n == 2 {
        "two"
    } else if n == 3 {
        "three"
    } else if n == 4 {
        "four"
    } else if n == 5 {
        "five"
    } else if n == 6 {
        "six"
    } else if n == 7 {
        "seven"
    } else if n == 8 {
        "eight"
    } else if n == 9 {
        "nine"
    } else if n == 10 {
        "ten"
    } else if n == 11 {
        "eleven"
    } else if n == 12 {
        "twelve"
    } else if n == 13 {
        "thirteen"
    } else if n == 14 {
        "fourteen"
    } else if n == 15 {
        "fifteen"
    } else if n == 16 {
        "sixteen"
    } else if n == 17 {
        "seventeen"
    } else if n == 18 {
        "eighteen"
    } else {
        "nineteen"
    }
}

/// Looks up the ordinal word for a value below twenty.
pub fn unit_ordinal_str(n: u64) -> (r: &'static str)
    requires
        n < 20,
    ensures
        r@ == unit_ordinal_word(n as int),
{
    if n == 0 {
        "zeroth"
    } else if n == 1 {
        "first"
    } else if n == 2 {
        "second"
    } else if n == 3 {
        "third"
    } else if n == 4 {
        "fourth"
    } else if n == 5 {
        "fifth"
    } else if n == 6 {
        "sixth"
    } else if n == 7 {
        "seventh"
    } else if n == 8 {
        "eighth"
    } else if n == 9 {
        "ninth"
    } else if n == 10 {
        "tenth"
    } else if n == 11 {
        "eleventh"
    } else if n == 12 {
        "twelfth"
    } else if n == 13 {
        "thirteenth"
    } else if n == 14 {
        "fourteenth"
    } else if n == 15 {
        "fifteenth"
    } else if n == 16 {
        "sixteenth"
    } else if n == 17 {
        "seventeenth"
    } else if n == 18 {
        "eighteenth"
    } else {
        "nineteenth"
    }
}

/// Looks up the cardinal word for `t` tens, for `t` in `[2, 9]`.
pub fn tens_str(t: u64) -> (r: &'static str)
    requires
        2 <= t <= 9,
    ensures
        r@ == tens_word(t as int),
{
    if t == 2 {
        "twenty"
    } else if t == 3 {
        "thirty"
    } else if t == 4 {
        "forty"
    } else if t == 5 {
        "fifty"
    } else if t == 6 {
        "sixty"
    } else if t == 7 {
        "seventy"
    } else if t == 8 {
        "eighty"
    } else {
        "ninety"
    }
}

/// Looks up the ordinal word for `t` tens, for `t` in `[2, 9]`.
pub fn tens_ordinal_str(t: u64) -> (r: &'static str)
    requires
        2 <= t <= 9,
    ensures
        r@ == tens_ordinal_word(t as int),
{
    if t == 2 {
        "twentieth"
    } else if t == 3 {
        "thirtieth"
    } else if t == 4 {
        "fortieth"
    } else if t == 5 {
        "fiftieth"
    } else if t == 6 {
        "sixtieth"
    } else if t == 7 {
        "seventieth"
    } else if t == 8 {
        "eightieth"
    } else {
        "ninetieth"
    }
}

/// Looks up the scale word at `1000^k`, for `k` in `[1, 8]`.
pub fn scale_str(k: u32) -> (r: &'static str)
    requires
        1 <= k <= 8,
    ensures
        r@ == scale_word(k as int),
{
    if k == 1 {
        "thousand"
    } else if k == 2 {
        "million"
    } else if k == 3 {
        "billion"
    } else if k == 4 {
        "trillion"
    } else if k == 5 {
        "quadrillion"
    } else if k == 6 {
        "quintillion"
    } else if k == 7 {
        "sextillion"
    } else {
        "septillion"
    }
}

/// Looks up the ordinal form of the scale word at `1000^k`, for `k` in
/// `[1, 8]`.
pub fn scale_ordinal_str(k: u32) -> (r: &'static str)
    requires
        1 <= k <= 8,
    ensures
        r@ == scale_ordinal_word(k as int),
{
    if k == 1 {
        "thousandth"
    } else if k == 2 {
        "millionth"
    } else if k == 3 {
        "billionth"
    } else if k == 4 {
        "trillionth"
    } else if k == 5 {
        "quadrillionth"
    } else if k == 6 {
        "quintillionth"
    } else if k == 7 {
        "sextillionth"
    } else {
        "septillionth"
    }
}

/// No cardinal word below twenty is empty, and none begins with the letter
/// that opens the sign marker "minus ".
pub proof fn lemma_unit_word_shape(n: int)
    requires
        0 <= n < 20,
    ensures
        unit_word(n).len() > 0,
        unit_word(n)[0] != 'm',
{
    reveal_strlit("zero");
    reveal_strlit("one");
    reveal_strlit("two");
    reveal_strlit("three");
    reveal_strlit("four");
    reveal_strlit("five");
    reveal_strlit("six");
    reveal_strlit("seven");
    reveal_strlit("eight");
    reveal_strlit("nine");
    reveal_strlit("ten");
    reveal_strlit("eleven");
    reveal_strlit("twelve");
    reveal_strlit("thirteen");
    reveal_strlit("fourteen");
    reveal_strlit("fifteen");
    reveal_strlit("sixteen");
    reveal_strlit("seventeen");
    reveal_strlit("eighteen");
    reveal_strlit("nineteen");
}

/// No tens word is empty, and none begins with the letter that opens the
/// sign marker "minus ".
pub proof fn lemma_tens_word_shape(t: int)
    requires
        2 <= t <= 9,
    ensures
        tens_word(t).len() > 0,
        tens_word(t)[0] != 'm',
{
    reveal_strlit("twenty");
    reveal_strlit("thirty");
    reveal_strlit("forty");
    reveal_strlit("fifty");
    reveal_strlit("sixty");
    reveal_strlit("seventy");
    reveal_strlit("eighty");
    reveal_strlit("ninety");
}

/// Every scale word is at least seven characters and contains neither a
/// space nor a hyphen.
pub proof fn lemma_scale_word_plain(k: int)
    requires
        1 <= k,
    ensures
        scale_word(k).len() >= 7,
        forall|i: int|
            0 <= i < scale_word(k).len() ==> #[trigger] scale_word(k)[i] != ' '
                && scale_word(k)[i] != '-',
{
    reveal_strlit("thousand");
    reveal_strlit("million");
    reveal_strlit("billion");
    reveal_strlit("trillion");
    reveal_strlit("quadrillion");
    reveal_strlit("quintillion");
    reveal_strlit("sextillion");
    reveal_strlit("septillion");
}

/// No word below twenty and no tens word is a scale word.
pub proof fn lemma_small_word_not_scale_word(n: int, k: int)
    requires
        1 <= k,
    ensures
        unit_word(n) != scale_word(k),
        tens_word(n) != scale_word(k),
{
    reveal_strlit("zero");
    reveal_strlit("one");
    reveal_strlit("two");
    reveal_strlit("three");
    reveal_strlit("four");
    reveal_strlit("five");
    reveal_strlit("six");
    reveal_strlit("seven");
    reveal_strlit("eight");
    reveal_strlit("nine");
    reveal_strlit("ten");
    reveal_strlit("eleven");
    reveal_strlit("twelve");
    reveal_strlit("thirteen");
    reveal_strlit("fourteen");
    reveal_strlit("fifteen");
    reveal_strlit("sixteen");
    reveal_strlit("seventeen");
    reveal_strlit("eighteen");
    reveal_strlit("nineteen");
    reveal_strlit("twenty");
    reveal_strlit("thirty");
    reveal_strlit("forty");
    reveal_strlit("fifty");
    reveal_strlit("sixty");
    reveal_strlit("seventy");
    reveal_strlit("eighty");
    reveal_strlit("ninety");
    reveal_strlit("thousand");
    reveal_strlit("million");
    reveal_strlit("billion");
    reveal_strlit("trillion");
    reveal_strlit("quadrillion");
    reveal_strlit("quintillion");
    reveal_strlit("sextillion");
    reveal_strlit("septillion");
    // Most pairs differ in length; naming each length settles those.
    assert("zero"@.len() == 4 && "one"@.len() == 3 && "two"@.len() == 3);
    assert("three"@.len() == 5 && "four"@.len() == 4 && "five"@.len() == 4);
    assert("six"@.len() == 3 && "seven"@.len() == 5 && "eight"@.len() == 5);
    assert("nine"@.len() == 4 && "ten"@.len() == 3 && "eleven"@.len() == 6);
    assert("twelve"@.len() == 6 && "thirteen"@.len() == 8 && "fourteen"@.len() == 8);
    assert("fifteen"@.len() == 7 && "sixteen"@.len() == 7 && "seventeen"@.len() == 9);
    assert("eighteen"@.len() == 8 && "nineteen"@.len() == 8);
    assert("twenty"@.len() == 6 && "thirty"@.len() == 6 && "forty"@.len() == 5);
    assert("fifty"@.len() == 5 && "sixty"@.len() == 5 && "seventy"@.len() == 7);
    assert("eighty"@.len() == 6 && "ninety"@.len() == 6);
    assert("thousand"@.len() == 8 && "million"@.len() == 7 && "billion"@.len() == 7);
    assert("trillion"@.len() == 8 && "quadrillion"@.len() == 11);
    assert("quintillion"@.len() == 11 && "sextillion"@.len() == 10);
    assert("septillion"@.len() == 10);
    // The words of equal length differ in one of their first three
    // characters; naming those characters settles each such pair.
    assert("thirteen"@[0] == 't' && "thirteen"@[1] == 'h' && "thirteen"@[2] == 'i');
    assert("fourteen"@[0] == 'f');
    assert("eighteen"@[0] == 'e');
    assert("nineteen"@[0] == 'n');
    assert("fifteen"@[0] == 'f');
    assert("sixteen"@[0] == 's');
    assert("seventy"@[0] == 's');
    assert("thousand"@[0] == 't' && "thousand"@[1] == 'h' && "thousand"@[2] == 'o');
    assert("trillion"@[0] == 't' && "trillion"@[1] == 'r');
    assert("million"@[0] == 'm');
    assert("billion"@[0] == 'b');
}

} // verus!
