use game_auth::errors::Error;
use game_auth::models::api::Payment;
use game_auth::validate::{compliant, is_made_of, is_month, validate_password, validate_username, Class};

#[test]
fn usernames_of_three_to_fifteen_characters_pass() {
    assert_eq!(validate_username("alice123"), Ok(true));
    assert_eq!(validate_username("bob"), Ok(true));
    assert_eq!(validate_username("a-b_c"), Ok(true));
    assert_eq!(validate_username("ABCDEFGHIJKLMNO"), Ok(true));
    assert_eq!(validate_username("---"), Ok(true));
    assert_eq!(validate_username("0_9"), Ok(true));
}

#[test]
fn usernames_too_short_or_too_long_fail() {
    assert_eq!(validate_username(""), Err(Error::CredsFormat));
    assert_eq!(validate_username("ab"), Err(Error::CredsFormat));
    assert_eq!(validate_username("ABCDEFGHIJKLMNOP"), Err(Error::CredsFormat));
    let long = "a".repeat(5000);
    assert_eq!(validate_username(&long), Err(Error::CredsFormat));
}

#[test]
fn usernames_with_other_characters_fail() {
    assert_eq!(validate_username("bad name"), Err(Error::CredsFormat));
    assert_eq!(validate_username("alice!"), Err(Error::CredsFormat));
    assert_eq!(validate_username("ålice"), Err(Error::CredsFormat));
    assert_eq!(validate_username("abc\n"), Err(Error::CredsFormat));
    assert_eq!(validate_username("a.b.c"), Err(Error::CredsFormat));
    assert_eq!(validate_username("abc{"), Err(Error::CredsFormat));
    assert_eq!(validate_username("abc@"), Err(Error::CredsFormat));
    assert_eq!(validate_username("abc["), Err(Error::CredsFormat));
    assert_eq!(validate_username("abc`"), Err(Error::CredsFormat));
    assert_eq!(validate_username("abc/"), Err(Error::CredsFormat));
    assert_eq!(validate_username("abc:"), Err(Error::CredsFormat));
}

#[test]
fn a_strong_password_passes() {
    assert_eq!(validate_password("Str0ng!Pass"), Ok(true));
    assert_eq!(validate_password("aA1!aaaaaa"), Ok(true));
    assert_eq!(validate_password("aA1 aaaaaa"), Ok(true));
    assert_eq!(validate_password("aA1éaaaaaa"), Ok(true));
}

#[test]
fn password_length_bounds() {
    assert_eq!(validate_password("aA1!aaaaa"), Err(Error::CredsFormat));
    let thirty = format!("aA1!{}", "x".repeat(26));
    assert_eq!(thirty.len(), 30);
    assert_eq!(validate_password(&thirty), Ok(true));
    let thirty_one = format!("aA1!{}", "x".repeat(27));
    assert_eq!(validate_password(&thirty_one), Err(Error::CredsFormat));
    // Seventeen characters in thirty-one bytes.
    let wide = format!("aA1{}", "€".repeat(7)) + "xxxxxxx";
    assert_eq!(wide.chars().count(), 17);
    assert_eq!(wide.len(), 31);
    assert_eq!(validate_password(&wide), Err(Error::CredsFormat));
    assert_eq!(validate_password(""), Err(Error::CredsFormat));
}

#[test]
fn password_needs_each_kind_of_character() {
    assert_eq!(validate_password("Strong!Password"), Err(Error::CredsFormat));
    assert_eq!(validate_password("str0ng!password"), Err(Error::CredsFormat));
    assert_eq!(validate_password("STR0NG!PASSWORD"), Err(Error::CredsFormat));
    assert_eq!(validate_password("Str0ngPassword"), Err(Error::CredsFormat));
    assert_eq!(validate_password("0123456789"), Err(Error::CredsFormat));
}

#[test]
fn a_short_password_with_a_line_break_fails() {
    assert_eq!(validate_password("aA1\n"), Err(Error::CredsFormat));
    assert_eq!(validate_password("aA1\naaaaaa"), Ok(true));
}

#[test]
fn months() {
    for ok in ["1", "5", "9", "01", "09", "10", "11", "12"] {
        assert!(is_month(ok), "{}", ok);
    }
    for bad in ["", "0", "00", "13", "19", "20", "010", "1 ", " 1", "a", "1a", "012", "٣"] {
        assert!(!is_month(bad), "{}", bad);
    }
}

#[test]
fn classes_of_characters() {
    assert!(is_made_of(Class::Name, "Anne-Marie", 1, 50));
    assert!(!is_made_of(Class::Name, "Anne Marie", 1, 50));
    assert!(!is_made_of(Class::Name, "", 1, 50));
    assert!(is_made_of(Class::Name, &"a".repeat(50), 1, 50));
    assert!(!is_made_of(Class::Name, &"a".repeat(51), 1, 50));
    assert!(is_made_of(Class::Address, "12 Main St., Apt-4\tEast\u{a0}Wing", 1, 125));
    assert!(is_made_of(Class::Address, "a\u{2003}b\u{3000}c\u{85}d\u{1680}e\u{2028}f\u{205f}g", 1, 125));
    assert!(!is_made_of(Class::Address, "12 Main St. #4", 1, 125));
    assert!(!is_made_of(Class::Address, "a\u{200b}b", 1, 125));
    assert!(!is_made_of(Class::Address, "a+b", 1, 125));
    assert!(is_made_of(Class::Address, &"a".repeat(125), 1, 125));
    assert!(!is_made_of(Class::Address, &"a".repeat(126), 1, 125));
    assert!(is_made_of(Class::Digits, "0123456789", 0, 10));
    assert!(!is_made_of(Class::Digits, "12a", 0, 10));
    assert!(!is_made_of(Class::Digits, "١٢٣", 0, 10));
    assert!(is_made_of(Class::Digits, "", 0, 10));
    assert!(is_made_of(Class::Username, "a_b", 3, 3));
    assert!(!is_made_of(Class::Username, "a_b", 4, 5));
    assert!(Class::Username.contains('_'));
    assert!(!Class::Name.contains('_'));
    assert!(Class::Address.contains(','));
    assert!(!Class::Digits.contains('-'));
}

fn form() -> Payment {
    Payment {
        first_name: String::from("Alice"),
        last_name: String::from("Liddell-Hargreaves"),
        address: String::from("4 Rabbit Hole, Oxford"),
        card_number: String::from("4242424242424242"),
        cvc: String::from("123"),
        exp_month: String::from("07"),
        exp_year: String::from("29"),
    }
}

#[test]
fn a_payment_form_in_order_is_compliant() {
    assert!(compliant(&form()));
    let mut short = form();
    short.card_number = String::from("4242424242424");
    short.cvc = String::from("1234");
    short.exp_month = String::from("7");
    assert!(compliant(&short));
}

#[test]
fn a_payment_form_with_one_bad_field_is_not_compliant() {
    let mut f = form();
    f.first_name = String::from("Al1ce");
    assert!(!compliant(&f));
    let mut f = form();
    f.last_name = String::new();
    assert!(!compliant(&f));
    let mut f = form();
    f.address = String::from("4 Rabbit Hole; Oxford");
    assert!(!compliant(&f));
    let mut f = form();
    f.card_number = String::from("424242424242");
    assert!(!compliant(&f));
    let mut f = form();
    f.card_number = String::from("42424242424242424");
    assert!(!compliant(&f));
    let mut f = form();
    f.cvc = String::from("12");
    assert!(!compliant(&f));
    let mut f = form();
    f.cvc = String::from("12345");
    assert!(!compliant(&f));
    let mut f = form();
    f.exp_month = String::from("13");
    assert!(!compliant(&f));
    let mut f = form();
    f.exp_year = String::from("2029");
    assert!(!compliant(&f));
    let mut f = form();
    f.exp_year = String::from("9");
    assert!(!compliant(&f));
}
