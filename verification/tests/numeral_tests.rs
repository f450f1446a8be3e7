use shawl::numeral::{digit_of, parse_decimal, to_decimal, NumeralError};
use shawl::text::{begins_with, chars_of, spells};

fn read(text: &str) -> Result<u64, NumeralError> {
    parse_decimal(&chars_of(text), 0)
}

fn kind_name(e: NumeralError) -> &'static str {
    match e {
        NumeralError::Empty => "Empty",
        NumeralError::InvalidDigit => "InvalidDigit",
        NumeralError::PosOverflow => "PosOverflow",
    }
}

const SAMPLES: [&str; 34] = [
    "",
    "0",
    "7",
    "10",
    "007",
    "+5",
    "+",
    "-",
    "-5",
    "++5",
    "+-5",
    "5+",
    " 5",
    "5 ",
    "1_000",
    "12a",
    "a12",
    "0x10",
    "1.5",
    "٣",
    "1٣",
    "2097152",
    "18446744073709551615",
    "18446744073709551616",
    "+18446744073709551615",
    "184467440737095516150",
    "99999999999999999999",
    "99999999999999999999x",
    "1844674407370955161x",
    "18446744073709551615x",
    "18446744073709551616x",
    "9999999999999999999x9",
    "00000000000000000000000000000001",
    "000000000000000000000000000000018446744073709551616",
];

#[test]
fn chars_of_gives_the_characters_in_order() {
    assert_eq!(chars_of(""), Vec::<char>::new());
    assert_eq!(chars_of("a=b"), vec!['a', '=', 'b']);
    assert_eq!(chars_of("é٣z"), vec!['é', '٣', 'z']);
}

#[test]
fn spells_compares_whole_texts() {
    assert!(spells(&chars_of("daily"), "daily"));
    assert!(!spells(&chars_of("daily"), "dail"));
    assert!(!spells(&chars_of("dail"), "daily"));
    assert!(!spells(&chars_of("daily"), "dailY"));
    assert!(spells(&chars_of(""), ""));
}

#[test]
fn begins_with_compares_the_front() {
    assert!(begins_with(&chars_of("bytes=12"), "bytes="));
    assert!(begins_with(&chars_of("bytes="), "bytes="));
    assert!(begins_with(&chars_of("anything"), ""));
    assert!(!begins_with(&chars_of("bytes"), "bytes="));
    assert!(!begins_with(&chars_of("byte=s12"), "bytes="));
}

#[test]
fn digit_of_knows_the_ten_digits() {
    let digits = ['0', '1', '2', '3', '4', '5', '6', '7', '8', '9'];
    for (value, c) in digits.iter().enumerate() {
        assert_eq!(digit_of(*c), Some(value as u64));
    }
    for c in ['/', ':', 'a', ' ', '+', '-', '٣', '０'] {
        assert_eq!(digit_of(c), None);
    }
}

#[test]
fn to_decimal_writes_exact_numerals() {
    assert_eq!(to_decimal(0), "0");
    assert_eq!(to_decimal(7), "7");
    assert_eq!(to_decimal(10), "10");
    assert_eq!(to_decimal(909), "909");
    assert_eq!(to_decimal(2097152), "2097152");
    assert_eq!(to_decimal(u64::MAX), "18446744073709551615");
}

#[test]
fn to_decimal_agrees_with_the_standard_library() {
    let mut n: u64 = 1;
    for _ in 0..64 {
        for m in [n - 1, n, n + 1, n.wrapping_mul(3)] {
            assert_eq!(to_decimal(m), m.to_string());
        }
        n = n.wrapping_mul(2);
    }
}

#[test]
fn parse_decimal_reads_exact_values() {
    assert_eq!(read("0"), Ok(0));
    assert_eq!(read("007"), Ok(7));
    assert_eq!(read("+5"), Ok(5));
    assert_eq!(read("2097152"), Ok(2097152));
    assert_eq!(read("18446744073709551615"), Ok(u64::MAX));
}

#[test]
fn parse_decimal_names_each_fault() {
    assert_eq!(read(""), Err(NumeralError::Empty));
    assert_eq!(read("+"), Err(NumeralError::InvalidDigit));
    assert_eq!(read("-"), Err(NumeralError::InvalidDigit));
    assert_eq!(read("-5"), Err(NumeralError::InvalidDigit));
    assert_eq!(read("12a"), Err(NumeralError::InvalidDigit));
    assert_eq!(read("18446744073709551616"), Err(NumeralError::PosOverflow));
    assert_eq!(read("99999999999999999999x"), Err(NumeralError::PosOverflow));
}

#[test]
fn parse_decimal_starts_where_it_is_told() {
    let chars = chars_of("bytes=123");
    assert_eq!(parse_decimal(&chars, 6), Ok(123));
    assert_eq!(parse_decimal(&chars, 8), Ok(3));
    assert_eq!(parse_decimal(&chars, 9), Err(NumeralError::Empty));
    assert_eq!(parse_decimal(&chars, 5), Err(NumeralError::InvalidDigit));
}

#[test]
fn parse_decimal_agrees_with_the_standard_library() {
    for text in SAMPLES {
        match (read(text), text.parse::<u64>()) {
            (Ok(ours), Ok(theirs)) => assert_eq!(ours, theirs, "{:?}", text),
            (Err(ours), Err(theirs)) => assert_eq!(
                format!("ParseIntError {{ kind: {} }}", kind_name(ours)),
                format!("{:?}", theirs),
                "{:?}",
                text
            ),
            (ours, theirs) => panic!("{:?}: {:?} against {:?}", text, ours, theirs),
        }
    }
}

#[test]
fn numerals_read_back() {
    for n in [0, 1, 9, 10, 11, 99, 100, 12345, 2097152, u64::MAX - 1, u64::MAX] {
        assert_eq!(read(&to_decimal(n)), Ok(n));
    }
}
