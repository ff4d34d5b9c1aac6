use numeral::Cardinal;

#[test]
fn units_below_twenty() {
    let expected = vec![
        "zero",
        "one",
        "two",
        "three",
        "four",
        "five",
        "six",
        "seven",
        "eight",
        "nine",
        "ten",
        "eleven",
        "twelve",
        "thirteen",
        "fourteen",
        "fifteen",
        "sixteen",
        "seventeen",
        "eighteen",
        "nineteen",
    ];
    for (n, word) in expected.iter().enumerate() {
        assert_eq!((n as u64).cardinal(), *word);
        assert_eq!((n as i32).cardinal(), *word);
    }
}

#[test]
fn zero_for_every_width() {
    assert_eq!(0u8.cardinal(), "zero");
    assert_eq!(0u16.cardinal(), "zero");
    assert_eq!(0u32.cardinal(), "zero");
    assert_eq!(0u64.cardinal(), "zero");
    assert_eq!(0usize.cardinal(), "zero");
    assert_eq!(0i8.cardinal(), "zero");
    assert_eq!(0i16.cardinal(), "zero");
    assert_eq!(0i32.cardinal(), "zero");
    assert_eq!(0i64.cardinal(), "zero");
    assert_eq!(0isize.cardinal(), "zero");
}

#[test]
fn doublets() {
    assert_eq!(20u32.cardinal(), "twenty");
    assert_eq!(21u32.cardinal(), "twenty-one");
    assert_eq!(40u32.cardinal(), "forty");
    assert_eq!(45u32.cardinal(), "forty-five");
    assert_eq!(99u32.cardinal(), "ninety-nine");
}

#[test]
fn boundary_triplets() {
    assert_eq!(100u32.cardinal(), "one hundred");
    assert_eq!(101u32.cardinal(), "one hundred one");
    assert_eq!(110u32.cardinal(), "one hundred ten");
    assert_eq!(120u32.cardinal(), "one hundred twenty");
    assert_eq!(121u32.cardinal(), "one hundred twenty-one");
}

#[test]
fn scale_boundaries() {
    assert_eq!(999u32.cardinal(), "nine hundred ninety-nine");
    assert_eq!(1000u32.cardinal(), "one thousand");
    assert_eq!(999999u32.cardinal(), "nine hundred ninety-nine thousand nine hundred ninety-nine");
    assert_eq!(1000000u32.cardinal(), "one million");
    assert_eq!(1001000u32.cardinal(), "one million one thousand");
}

#[test]
fn zero_triplet_skipped() {
    assert_eq!(1000000001u64.cardinal(), "one billion one");
    assert_eq!(1000001u64.cardinal(), "one million one");
    assert_eq!(1000000000000u64.cardinal(), "one trillion");
}

#[test]
fn minus_prefix() {
    assert_eq!((-1i32).cardinal(), "minus one");
    assert_eq!((-121i64).cardinal(), "minus one hundred twenty-one");
    for n in 1i64..=300 {
        assert_eq!((-n).cardinal(), format!("minus {}", n.cardinal()));
    }
    for n in -300i64..=300 {
        assert_eq!(n.cardinal().starts_with("minus "), n < 0);
    }
}

#[test]
fn signed_minimum_of_every_width() {
    assert_eq!(i8::MIN.cardinal(), "minus one hundred twenty-eight");
    assert_eq!(
        i16::MIN.cardinal(),
        "minus thirty-two thousand seven hundred sixty-eight"
    );
    assert_eq!(
        i32::MIN.cardinal(),
        "minus two billion one hundred forty-seven million four hundred eighty-three thousand six hundred forty-eight"
    );
    assert_eq!(
        i64::MIN.cardinal(),
        "minus nine quintillion two hundred twenty-three quadrillion three hundred seventy-two trillion thirty-six billion eight hundred fifty-four million seven hundred seventy-five thousand eight hundred eight"
    );
}

#[test]
fn maximum_width_exactness() {
    assert_eq!(
        u64::MAX.cardinal(),
        "eighteen quintillion four hundred forty-six quadrillion seven hundred forty-four trillion seventy-three billion seven hundred nine million five hundred fifty-one thousand six hundred fifteen"
    );
    assert_eq!(
        i64::MAX.cardinal(),
        "nine quintillion two hundred twenty-three quadrillion three hundred seventy-two trillion thirty-six billion eight hundred fifty-four million seven hundred seventy-five thousand eight hundred seven"
    );
    assert_eq!(u8::MAX.cardinal(), "two hundred fifty-five");
    assert_eq!(i8::MAX.cardinal(), "one hundred twenty-seven");
    assert_eq!(u16::MAX.cardinal(), "sixty-five thousand five hundred thirty-five");
    assert_eq!(
        u32::MAX.cardinal(),
        "four billion two hundred ninety-four million nine hundred sixty-seven thousand two hundred ninety-five"
    );
}
