use nft_staking::element::{atomic_number, white_space};
use nft_staking::StakeError;

#[test]
fn number_follows_the_last_hash() {
    assert_eq!(atomic_number("Carbon #6"), Ok(6));
    assert_eq!(atomic_number("Oganesson #118"), Ok(118));
    assert_eq!(atomic_number("#1 of #2 is #33"), Ok(33));
    assert_eq!(atomic_number("#7"), Ok(7));
}

#[test]
fn name_without_a_hash_is_read_as_a_whole() {
    assert_eq!(atomic_number("42"), Ok(42));
    assert_eq!(atomic_number("  42\t"), Ok(42));
    assert_eq!(atomic_number("Carbon 6"), Err(StakeError::InvalidElementName));
}

#[test]
fn padding_of_nul_characters_is_dropped() {
    assert_eq!(atomic_number("Carbon #6\0\0\0\0\0\0\0\0\0\0\0\0\0\0\0\0\0\0\0\0\0\0\0"), Ok(6));
    assert_eq!(atomic_number("Iron #2\06\0"), Ok(26));
    assert_eq!(atomic_number("#\0\0\0"), Err(StakeError::InvalidElementName));
}

#[test]
fn white_space_around_the_number_is_dropped() {
    assert_eq!(atomic_number("Carbon # 6 "), Ok(6));
    assert_eq!(atomic_number("Carbon #\t\n6\r\n"), Ok(6));
    assert_eq!(atomic_number("Carbon #\u{a0}6\u{3000}"), Ok(6));
    assert_eq!(atomic_number("Carbon #6 \0"), Err(StakeError::InvalidElementName));
    assert_eq!(atomic_number("Carbon #1 2"), Err(StakeError::InvalidElementName));
}

#[test]
fn leading_zeros_do_not_change_the_number() {
    assert_eq!(atomic_number("#006"), Ok(6));
    assert_eq!(atomic_number("#0000000000000000000000000255"), Ok(255));
    assert_eq!(atomic_number("#0"), Ok(0));
}

#[test]
fn name_without_a_number_is_invalid() {
    assert_eq!(atomic_number(""), Err(StakeError::InvalidElementName));
    assert_eq!(atomic_number("Carbon #"), Err(StakeError::InvalidElementName));
    assert_eq!(atomic_number("Carbon #   "), Err(StakeError::InvalidElementName));
    assert_eq!(atomic_number("Carbon #six"), Err(StakeError::InvalidElementName));
    assert_eq!(atomic_number("Carbon #6a"), Err(StakeError::InvalidElementName));
    assert_eq!(atomic_number("Carbon #-6"), Err(StakeError::InvalidElementName));
    assert_eq!(atomic_number("Carbon #+6"), Err(StakeError::InvalidElementName));
    assert_eq!(atomic_number("Carbon #6.0"), Err(StakeError::InvalidElementName));
    assert_eq!(atomic_number("Carbon #\u{663}"), Err(StakeError::InvalidElementName));
}

#[test]
fn number_above_255_is_invalid() {
    assert_eq!(atomic_number("#255"), Ok(255));
    assert_eq!(atomic_number("#256"), Err(StakeError::InvalidElementName));
    assert_eq!(atomic_number("#1000"), Err(StakeError::InvalidElementName));
    assert_eq!(
        atomic_number("#99999999999999999999999999999999999999999999"),
        Err(StakeError::InvalidElementName)
    );
}

#[test]
fn number_agrees_with_the_standard_reading_of_the_name() {
    let names = [
        "Carbon #6",
        "Gold #79\0\0\0",
        " # 12 ",
        "#",
        "x#y#z",
        "#3#",
        "#300",
        "#\u{2003}9\u{2003}",
        "\0#\05\0",
    ];
    for name in names {
        let last = name.split('#').last().unwrap();
        let text = last.trim().replace('\0', "");
        let expected = if !text.is_empty() && text.chars().all(|c| c.is_digit(10)) {
            text.parse::<u8>().ok()
        } else {
            None
        };
        assert_eq!(atomic_number(name).ok(), expected, "name {:?}", name);
    }
}

#[test]
fn white_space_is_what_the_standard_library_calls_so() {
    for code in 0u32..=0x11_0000 {
        if let Some(c) = char::from_u32(code) {
            assert_eq!(white_space(c), c.is_whitespace(), "code {:x}", code);
        }
    }
}
