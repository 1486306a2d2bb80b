use rvhwfuzzer::kiwi::bits::{Bits, BitsParseError};

#[test]
fn parse_bits() {
    let bits = Bits::try_from("0100011".to_string()).unwrap();
    assert_eq!(bits.num_bits(), 7);
    assert_eq!(bits.as_u32(), Some(0b0100011));
}

#[test]
fn parse_bits_errors() {
    assert_eq!(Bits::try_from(String::new()).unwrap_err(), BitsParseError::Empty);
    assert_eq!(Bits::try_from("_01".to_string()).unwrap_err(), BitsParseError::ExpectedBit('_'));
    assert_eq!(Bits::try_from("01_".to_string()).unwrap_err(), BitsParseError::ExpectedBit('_'));
    assert_eq!(
        Bits::try_from("01x2".to_string()).unwrap_err(),
        BitsParseError::ExpectedUnderscoreBit('x')
    );
}

#[test]
fn parse_bits_with_underscores() {
    let bits = Bits::try_from("1_0_1".to_string()).unwrap();
    assert_eq!(bits.num_bits(), 3);
    assert_eq!(bits.as_u32(), Some(0b101));
    assert_eq!(bits.count_ones(), 2);
}

#[test]
fn parse_long_bits() {
    let s = "1".repeat(70);
    let bits = Bits::try_from(s).unwrap();
    assert_eq!(bits.num_bits(), 70);
    assert_eq!(bits.as_u32(), None);
}

#[test]
fn bits_operations() {
    let mut bits = Bits::zeros(8);
    assert_eq!(bits.as_u32(), Some(0));
    bits.bitor_ones(2, 3);
    assert_eq!(bits.as_u32(), Some(0b0001_1100));
    let rhs = Bits::try_from("11".to_string()).unwrap();
    bits.bitor_at(6, &rhs);
    assert_eq!(bits.as_u32(), Some(0b1101_1100));
    assert_eq!(bits.le_byte(0), 0b1101_1100);
    bits.bitor_ones(9, 3);
    assert_eq!(bits.as_u32(), Some(0b1101_1100));
    assert_eq!(Bits::zeros(100).num_bits(), 100);
}

#[test]
fn bits_texts() {
    assert_eq!(Bits::try_from("1010".to_string()).unwrap().debug_string(), "bits<4>(1010)");
    assert_eq!(Bits::try_from("0000_1010_1111".to_string()).unwrap().debug_string(), "bits<12>(0AF)");
    assert_eq!(Bits::try_from("00101".to_string()).unwrap().debug_string(), "bits<5>(00101)");
    assert_eq!(Bits::try_from(String::new()).err().unwrap().to_string(), "Got an empty string");
    assert_eq!(Bits::try_from("_1".to_string()).err().unwrap().to_string(), "Expected '0' or '1'. Got '_'");
    assert_eq!(Bits::try_from("12".to_string()).err().unwrap().to_string(), "Expected '0', '1' or '_'. Got '2'");
}
