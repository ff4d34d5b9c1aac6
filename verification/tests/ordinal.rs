use numeral::Cardinal;
use numeral::Ordinal;

#[test]
fn ordinal_units() {
    assert_eq!(0u32.ordinal(), "zeroth");
    assert_eq!(1u32.ordinal(), "first");
    assert_eq!(2u32.ordinal(), "second");
    assert_eq!(3u32.ordinal(), "third");
    assert_eq!(5u32.ordinal(), "fifth");
    assert_eq!(8u32.ordinal(), "eighth");
    assert_eq!(9u32.ordinal(), "ninth");
    assert_eq!(12u32.ordinal(), "twelfth");
    assert_eq!(19u32.ordinal(), "nineteenth");
}

#[test]
fn ordinal_for_every_width() {
    assert_eq!(0u8.ordinal(), "zeroth");
    assert_eq!(3u16.ordinal(), "third");
    assert_eq!(3u64.ordinal(), "third");
    assert_eq!(0usize.ordinal(), "zeroth");
    assert_eq!((-3i8).ordinal(), "minus third");
    assert_eq!((-3i16).ordinal(), "minus third");
    assert_eq!(3i64.ordinal(), "third");
    assert_eq!(3isize.ordinal(), "third");
}

#[test]
fn ordinal_doublets() {
    assert_eq!(20u32.ordinal(), "twentieth");
    assert_eq!(21u32.ordinal(), "twenty-first");
    assert_eq!(30u32.ordinal(), "thirtieth");
    assert_eq!(45u32.ordinal(), "forty-fifth");
    assert_eq!(99u32.ordinal(), "ninety-ninth");
}

#[test]
fn ordinal_triplets() {
    assert_eq!(100u32.ordinal(), "one hundredth");
    assert_eq!(101u32.ordinal(), "one hundred first");
    assert_eq!(111u32.ordinal(), "one hundred eleventh");
    assert_eq!(112u32.ordinal(), "one hundred twelfth");
    assert_eq!(120u32.ordinal(), "one hundred twentieth");
    assert_eq!(121u32.ordinal(), "one hundred twenty-first");
}

#[test]
fn ordinal_scales() {
    assert_eq!(1000u32.ordinal(), "one thousandth");
    assert_eq!(1001u32.ordinal(), "one thousand first");
    assert_eq!(1000000u32.ordinal(), "one millionth");
    assert_eq!(1001000u32.ordinal(), "one million one thousandth");
    assert_eq!(1000000001u64.ordinal(), "one billion first");
}

#[test]
fn ordinal_keeps_earlier_words_cardinal() {
    for n in [21u64, 121, 1001, 4567, 1000000001] {
        let cardinal = n.cardinal();
        let ordinal = n.ordinal();
        // The two forms share everything up to the final word.
        let split = cardinal
            .rfind(|c: char| c == ' ' || c == '-')
            .map(|i| i + 1)
            .unwrap_or(0);
        assert_eq!(ordinal[..split], cardinal[..split]);
        assert_ne!(ordinal[split..], cardinal[split..]);
    }
}

#[test]
fn ordinal_negative_and_extreme() {
    assert_eq!((-3i32).ordinal(), "minus third");
    assert_eq!((-20i64).ordinal(), "minus twentieth");
    assert_eq!(
        u64::MAX.ordinal(),
        "eighteen quintillion four hundred forty-six quadrillion seven hundred forty-four trillion seventy-three billion seven hundred nine million five hundred fifty-one thousand six hundred fifteenth"
    );
    assert_eq!(
        i64::MIN.ordinal(),
        "minus nine quintillion two hundred twenty-three quadrillion three hundred seventy-two trillion thirty-six billion eight hundred fifty-four million seven hundred seventy-five thousand eight hundred eighth"
    );
}
