use techfest::failure::Failure;
use techfest::role::Role;
use techfest::text::{
    byte_is_space, copy_range, last_index_in, lower_byte, range_equals, range_matches_folded,
    trim_range, trimmed_bytes,
};
use techfest::user::{address_is_institutional, check_student_address, User};

fn with_email(email: &str) -> User {
    User {
        id: 1,
        name: "N".to_string(),
        dob: 1,
        email: email.to_string(),
        phone: "1".to_string(),
        role: Role::PARTICIPANT,
        photo_hash: None,
        verified: true,
        password_hash: "h".to_string(),
    }
}

#[test]
fn institutional_address_counts_as_paid() {
    assert!(with_email("a@sliet.ac.in").is_payment_done(false));
    assert!(with_email("  a@sliet.ac.in\n").is_payment_done(false));
    assert!(with_email("a@b@sliet.ac.in").is_payment_done(false));
    assert!(with_email("@sliet.ac.in").is_payment_done(false));
}

#[test]
fn other_address_goes_by_the_payment_record() {
    for email in [
        "a@example.org",
        "a@SLIET.ac.in",
        "a@sliet.ac.in.evil.org",
        "a@xsliet.ac.in",
        "sliet.ac.in",
        "a@sliet.ac.in@",
        "a@sliet.ac.in x",
        "a@ sliet.ac.in",
        "",
        "   ",
    ] {
        assert!(!with_email(email).is_payment_done(false), "{}", email);
        assert!(with_email(email).is_payment_done(true), "{}", email);
        assert!(!address_is_institutional(email), "{}", email);
    }
}

#[test]
fn student_address_must_be_institutional() {
    assert_eq!(check_student_address("a@sliet.ac.in"), Ok(()));
    assert_eq!(check_student_address("a@SLIET.AC.IN"), Ok(()));
    assert_eq!(check_student_address("a@Sliet.Ac.In"), Ok(()));
    assert_eq!(check_student_address("x@y@sliet.ac.in"), Ok(()));
    assert_eq!(check_student_address("a@example.org"), Err(Failure::Unauthorized));
    assert_eq!(check_student_address("a@sliet.ac.in "), Err(Failure::Unauthorized));
    assert_eq!(check_student_address("a@sliet.ac.in@"), Err(Failure::Unauthorized));
    assert_eq!(check_student_address("a@"), Err(Failure::Unauthorized));
    assert_eq!(check_student_address("sliet.ac.in"), Err(Failure::ValidationFailed));
    assert_eq!(check_student_address(""), Err(Failure::ValidationFailed));
}

#[test]
fn student_address_with_wide_characters() {
    assert_eq!(check_student_address("j\u{00fc}rgen@sliet.ac.in"), Ok(()));
    assert_eq!(check_student_address("a@sliet.ac.\u{0131}n"), Err(Failure::Unauthorized));
    assert!(address_is_institutional("\u{00e9}@sliet.ac.in"));
}

#[test]
fn trim_range_of_texts() {
    assert_eq!(trim_range(b"  ab c \t"), (2, 6));
    assert_eq!(trim_range(b"abc"), (0, 3));
    assert_eq!(trim_range(b""), (0, 0));
    assert_eq!(trim_range(b" \n\r\t\x0c"), (5, 5));
    assert_eq!(trim_range(b"\x0ba\x0b"), (0, 3));
    assert_eq!(trim_range(b" a"), (1, 2));
    assert_eq!(trim_range(b"a "), (0, 1));
}

#[test]
fn trimmed_bytes_of_texts() {
    assert_eq!(trimmed_bytes("  b@x \n"), b"b@x".to_vec());
    assert_eq!(trimmed_bytes("b@x"), b"b@x".to_vec());
    assert_eq!(trimmed_bytes("   "), Vec::<u8>::new());
    assert_eq!(trimmed_bytes(" a b "), b"a b".to_vec());
    assert_eq!(copy_range(b"abcdef", 2, 4), b"cd".to_vec());
    assert_eq!(copy_range(b"abcdef", 3, 3), Vec::<u8>::new());
}

#[test]
fn last_index_in_ranges() {
    assert_eq!(last_index_in(b"a@b@c", 0, 5, b'@'), Some(3));
    assert_eq!(last_index_in(b"a@b@c", 0, 3, b'@'), Some(1));
    assert_eq!(last_index_in(b"a@b@c", 2, 3, b'@'), None);
    assert_eq!(last_index_in(b"a@b@c", 4, 5, b'@'), None);
    assert_eq!(last_index_in(b"", 0, 0, b'@'), None);
    assert_eq!(last_index_in(b"@", 0, 1, b'@'), Some(0));
}

#[test]
fn ranges_compare() {
    assert!(range_equals(b"xxabcxx", 2, 5, b"abc"));
    assert!(!range_equals(b"xxabcxx", 2, 5, b"abd"));
    assert!(!range_equals(b"xxabcxx", 2, 5, b"ab"));
    assert!(!range_equals(b"xxABCxx", 2, 5, b"abc"));
    assert!(range_equals(b"abc", 1, 1, b""));
    assert!(range_matches_folded(b"xxABCxx", 2, 5, b"abc"));
    assert!(range_matches_folded(b"xxaBcxx", 2, 5, b"AbC"));
    assert!(!range_matches_folded(b"xxabcxx", 2, 5, b"abd"));
    assert!(!range_matches_folded(b"xx[xx", 2, 3, b"{"));
    assert!(!range_matches_folded(b"xx@xx", 2, 3, b"`"));
}

#[test]
fn bytes_classified() {
    for b in 0u8..=255 {
        assert_eq!(byte_is_space(b), b.is_ascii_whitespace());
        assert_eq!(lower_byte(b), b.to_ascii_lowercase());
    }
}
