use koochelib::app::pkg::is_valid_iranian_national_code;

fn valid(s: &str) -> bool {
    is_valid_iranian_national_code(&String::from(s))
}

#[test]
fn accepts_code_with_matching_check_digit() {
    // weighted sum of 001234567 is 112; 112 % 11 = 2, so the check digit is 11 - 2 = 9
    assert!(valid("0012345679"));
}

#[test]
fn refuses_code_with_wrong_check_digit() {
    assert!(!valid("0012345671"));
}

#[test]
fn small_remainder_is_its_own_check_digit() {
    // weighted sum of 000000001 is 2; 2 % 11 = 2 -> check 9; of 000000010 is 3 -> check 8
    assert!(valid("0000000019"));
    // weighted sum of 100000000 is 10 -> remainder 10 -> check 1
    assert!(valid("1000000001"));
    // weighted sum of 000000000 is 0 -> remainder 0 < 2 -> check 0
    assert!(valid("0000000000"));
    // weighted sum of 000000006 is 12 -> remainder 1 < 2 -> check 1
    assert!(valid("0000000061"));
    assert!(!valid("0000000069"));
}

#[test]
fn refuses_wrong_lengths_and_non_digits() {
    assert!(!valid(""));
    assert!(!valid("001234567"));
    assert!(!valid("00123456790"));
    assert!(!valid("00123-5679"));
    assert!(!valid("a012345679"));
    // ten characters, but one of them takes two bytes
    assert!(!valid("00123456٧9"));
}

#[test]
fn exactly_one_digit_completes_a_prefix() {
    for prefix in ["001234567", "123456789", "987654321", "000000001"] {
        let completing: Vec<char> = ('0'..='9')
            .filter(|c| valid(&format!("{}{}", prefix, c)))
            .collect();
        assert_eq!(completing.len(), 1, "prefix {}", prefix);
    }
    assert_eq!(('0'..='9').filter(|c| valid(&format!("001234567{}", c))).collect::<Vec<char>>(), vec!['9']);
}

#[test]
fn non_ascii_digits_are_not_codes() {
    assert!(!valid("۰۰۱۲۳۴۵۶۷۹"));
    assert!(!valid("00123456７9"));
}
