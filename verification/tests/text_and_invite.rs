use oxi_tokens::invite::generate_invite_code;
use oxi_tokens::text::{decimal_string, first_segment_of};

#[test]
fn decimal_of_zero() {
    assert_eq!(decimal_string(0), "0");
}

#[test]
fn decimal_of_multi_digit_numbers() {
    assert_eq!(decimal_string(7), "7");
    assert_eq!(decimal_string(10), "10");
    assert_eq!(decimal_string(255), "255");
    assert_eq!(decimal_string(25000), "25000");
}

#[test]
fn decimal_of_largest_u64() {
    assert_eq!(decimal_string(u64::MAX), u64::MAX.to_string());
}

#[test]
fn decimal_distinct_numbers_differ() {
    assert_ne!(decimal_string(1), decimal_string(10));
    assert_ne!(decimal_string(12), decimal_string(21));
}

#[test]
fn first_segment_stops_at_underscore() {
    assert_eq!(first_segment_of("miner_1"), "miner");
    assert_eq!(first_segment_of("vault_main_2"), "vault");
}

#[test]
fn first_segment_without_underscore_is_whole() {
    assert_eq!(first_segment_of("vault"), "vault");
    assert_eq!(first_segment_of(""), "");
}

#[test]
fn first_segment_of_leading_underscore_is_empty() {
    assert_eq!(first_segment_of("_miner"), "");
}

#[test]
fn invite_code_of_known_ids() {
    assert_eq!(generate_invite_code("123".to_string()), "257705");
    assert_eq!(generate_invite_code("42".to_string()), "5ab9dd");
    assert_eq!(generate_invite_code("987654321".to_string()), "c419e0");
}

#[test]
fn invite_code_is_six_characters_and_deterministic() {
    let a = generate_invite_code("555".to_string());
    let b = generate_invite_code("555".to_string());
    assert_eq!(a.chars().count(), 6);
    assert_eq!(a, b);
    assert_ne!(a, generate_invite_code("556".to_string()));
}

#[test]
fn invite_code_is_lower_case_hex() {
    for id in ["0", "1", "123", "18446744073709551615"] {
        let code = generate_invite_code(id.to_string());
        assert!(code.chars().all(|c| c.is_ascii_digit() || ('a'..='f').contains(&c)));
    }
}
