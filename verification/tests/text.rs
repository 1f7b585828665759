use rawtoh_module_sdk::random::random_id;
use rawtoh_module_sdk::text::{same, to_decimal, to_hex, trim, trim_end_slashes};

#[test]
fn trims_unicode_white_space_on_both_sides() {
    assert_eq!(trim(" \t\r\n rth_e_1 2 \u{a0}\u{3000}"), "rth_e_1 2");
    assert_eq!(trim("rth_e_1"), "rth_e_1");
    assert_eq!(trim("  "), "");
    assert_eq!(trim(""), "");
    // A zero-width space is no white space.
    assert_eq!(trim("\u{200b}x"), "\u{200b}x");
}

#[test]
fn trimming_agrees_with_the_standard_library_on_every_character() {
    for p in 0..=0x10ffffu32 {
        if let Some(c) = char::from_u32(p) {
            let s = c.to_string();
            assert_eq!(trim(&s), s.trim());
        }
    }
}

#[test]
fn trims_slashes_at_the_end_only() {
    assert_eq!(trim_end_slashes("https://app.rawtoh.io//"), "https://app.rawtoh.io");
    assert_eq!(trim_end_slashes("https://app.rawtoh.io"), "https://app.rawtoh.io");
    assert_eq!(trim_end_slashes("///"), "");
}

#[test]
fn hexadecimal_and_decimal_digits() {
    assert_eq!(to_hex(&[0x00, 0x0f, 0xa9, 0xff]), "000fa9ff");
    assert_eq!(to_decimal(0), "0");
    assert_eq!(to_decimal(-32601), "-32601");
    assert_eq!(to_decimal(i64::MAX), i64::MAX.to_string());
    assert_eq!(to_decimal(i64::MIN), i64::MIN.to_string());
}

#[test]
fn strings_are_the_same_by_their_characters() {
    assert!(same("ping", "ping"));
    assert!(!same("ping", "pong"));
}

#[test]
fn ids_are_sixteen_random_bytes_in_hexadecimal() {
    let a = random_id();
    let b = random_id();
    assert_eq!(a.len(), 32);
    assert!(a.chars().all(|c| c.is_ascii_digit() || ('a'..='f').contains(&c)));
    assert_ne!(a, b);
    assert_ne!(a, "0".repeat(32));
}
