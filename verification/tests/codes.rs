use koochelib::app::utils::code::{seller_verify_creator, sid_creator, verify_creator};
use koochelib::app::utils::text::decimal_string;

#[test]
fn identifiers_have_the_asked_length_and_alphabet() {
    for len in [0u8, 1, 25, 30, 35, 40, 45, 50, 55, 255] {
        let sid = sid_creator(len);
        assert_eq!(sid.chars().count(), len as usize);
        assert!(sid.chars().all(|c| c.is_ascii_alphanumeric()));
    }
}

#[test]
fn identifiers_differ() {
    assert_ne!(sid_creator(40), sid_creator(40));
}

#[test]
fn user_codes_are_in_range() {
    for _ in 0..1000 {
        let c = verify_creator();
        assert!((132568..987984).contains(&c));
    }
}

#[test]
fn seller_codes_are_in_range() {
    for _ in 0..1000 {
        let c = seller_verify_creator();
        assert!((13256..65535).contains(&c));
    }
}

#[test]
fn decimal_numerals() {
    assert_eq!(decimal_string(0), "0");
    assert_eq!(decimal_string(7), "7");
    assert_eq!(decimal_string(10), "10");
    assert_eq!(decimal_string(132568), "132568");
    assert_eq!(decimal_string(u64::MAX), u64::MAX.to_string());
}
