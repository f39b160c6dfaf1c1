use webapp::form::{is_valid_name_char, parse_form, validate, FormData};

fn form(first: &str, last: &str, phone: &str, address: &str, age_raw: &str, age: i64) -> FormData {
    FormData {
        first_name: first.to_string(),
        last_name: last.to_string(),
        phone: phone.to_string(),
        address: address.to_string(),
        age,
        age_raw: age_raw.to_string(),
    }
}

fn good() -> FormData {
    form("Jānis", "Bērziņš", "12345678", "Brīvības iela 19, Rīga", "25", 25)
}

#[test]
fn valid_form_has_no_errors() {
    assert!(validate(&good()).is_empty());
}

#[test]
fn names_accept_letters_hyphens_apostrophes() {
    assert!(is_valid_name_char('a'));
    assert!(is_valid_name_char('Ž'));
    assert!(is_valid_name_char('-'));
    assert!(is_valid_name_char('\''));
    assert!(!is_valid_name_char('1'));
    assert!(!is_valid_name_char(' '));
    assert!(!is_valid_name_char('!'));
    let mut d = good();
    d.first_name = "Anne-Marie".to_string();
    d.last_name = "O'Neil".to_string();
    assert!(validate(&d).is_empty());
}

#[test]
fn first_name_errors() {
    let mut d = good();
    d.first_name = "   ".to_string();
    assert_eq!(validate(&d), vec!["First Name is required.".to_string()]);
    d.first_name = " J ".to_string();
    assert_eq!(validate(&d), vec!["First Name must be at least 2 characters.".to_string()]);
    d.first_name = "a".repeat(51);
    assert_eq!(validate(&d), vec!["First Name must not exceed 50 characters.".to_string()]);
    d.first_name = "a".repeat(50);
    assert!(validate(&d).is_empty());
    d.first_name = "J4nis".to_string();
    assert_eq!(
        validate(&d),
        vec!["First Name must contain only letters, hyphens, or apostrophes (no digits or symbols).".to_string()]
    );
}

#[test]
fn last_name_errors() {
    let mut d = good();
    d.last_name = String::new();
    assert_eq!(validate(&d), vec!["Last Name is required.".to_string()]);
    d.last_name = "B".to_string();
    assert_eq!(validate(&d), vec!["Last Name must be at least 2 characters.".to_string()]);
    d.last_name = "b".repeat(60);
    assert_eq!(validate(&d), vec!["Last Name must not exceed 50 characters.".to_string()]);
    d.last_name = "Bērz iņš".to_string();
    assert_eq!(
        validate(&d),
        vec!["Last Name must contain only letters, hyphens, or apostrophes (no digits or symbols).".to_string()]
    );
}

#[test]
fn name_length_counts_characters_not_bytes() {
    let mut d = good();
    // 25 two-byte characters: 50 bytes but only 25 characters.
    d.first_name = "ā".repeat(25);
    assert!(validate(&d).is_empty());
    d.first_name = "ā".repeat(51);
    assert_eq!(validate(&d), vec!["First Name must not exceed 50 characters.".to_string()]);
}

#[test]
fn phone_errors() {
    let mut d = good();
    d.phone = " ".to_string();
    assert_eq!(validate(&d), vec!["Phone Number is required.".to_string()]);
    d.phone = "1234 5678".to_string();
    assert_eq!(
        validate(&d),
        vec!["Phone Number must contain only numeric digits (no spaces, dashes, or symbols).".to_string()]
    );
    d.phone = "1234567".to_string();
    assert_eq!(validate(&d), vec!["Phone Number must be exactly 8 digits (got 7).".to_string()]);
    d.phone = "123456789012".to_string();
    assert_eq!(validate(&d), vec!["Phone Number must be exactly 8 digits (got 12).".to_string()]);
    d.phone = "  87654321\t".to_string();
    assert!(validate(&d).is_empty());
}

#[test]
fn address_errors() {
    let mut d = good();
    d.address = "".to_string();
    assert_eq!(validate(&d), vec!["Address is required.".to_string()]);
    d.address = "a 1".to_string();
    assert_eq!(validate(&d), vec!["Address must be at least 5 characters.".to_string()]);
    d.address = format!("Main {}", "1".repeat(200));
    assert_eq!(validate(&d), vec!["Address must not exceed 200 characters.".to_string()]);
    d.address = "12345 678".to_string();
    assert_eq!(
        validate(&d),
        vec!["Address must include a street name (at least one letter).".to_string()]
    );
    d.address = "Main Street".to_string();
    assert_eq!(
        validate(&d),
        vec!["Address must include a street number (at least one digit).".to_string()]
    );
    d.address = "- - - - -".to_string();
    assert_eq!(
        validate(&d),
        vec![
            "Address must include a street name (at least one letter).".to_string(),
            "Address must include a street number (at least one digit).".to_string(),
        ]
    );
}

#[test]
fn age_errors() {
    let mut d = good();
    d.age_raw = "".to_string();
    d.age = 0;
    assert_eq!(validate(&d), vec!["Age is required.".to_string()]);
    d.age_raw = "2x".to_string();
    assert_eq!(
        validate(&d),
        vec!["Age must be a whole number with no letters or symbols.".to_string()]
    );
    d.age_raw = "-5".to_string();
    d.age = -5;
    assert_eq!(
        validate(&d),
        vec!["Age must be a whole number with no letters or symbols.".to_string()]
    );
    d.age_raw = "151".to_string();
    d.age = 151;
    assert_eq!(validate(&d), vec!["Age must be between 1 and 150 (got 151).".to_string()]);
    d.age_raw = "0".to_string();
    d.age = 0;
    assert_eq!(validate(&d), vec!["Age must be between 1 and 150 (got 0).".to_string()]);
    d.age_raw = "150".to_string();
    d.age = 150;
    assert!(validate(&d).is_empty());
    d.age_raw = "1".to_string();
    d.age = 1;
    assert!(validate(&d).is_empty());
}

#[test]
fn all_fields_wrong_lists_messages_in_form_order() {
    let d = FormData::default();
    assert_eq!(
        validate(&d),
        vec![
            "First Name is required.".to_string(),
            "Last Name is required.".to_string(),
            "Phone Number is required.".to_string(),
            "Address is required.".to_string(),
            "Age is required.".to_string(),
        ]
    );
}

#[test]
fn parse_form_reads_fields() {
    let d = parse_form("first_name=J%C4%81nis&last_name=B%C4%93rzi%C5%86%C5%A1&phone=12345678&address=Br%C4%ABv%C4%ABbas+iela+19%2C+R%C4%ABga&age=25");
    assert_eq!(d.first_name, "Jānis");
    assert_eq!(d.last_name, "Bērziņš");
    assert_eq!(d.phone, "12345678");
    assert_eq!(d.address, "Brīvības iela 19, Rīga");
    assert_eq!(d.age_raw, "25");
    assert_eq!(d.age, 25);
    assert!(validate(&d).is_empty());
}

#[test]
fn parse_form_missing_and_repeated_fields() {
    let d = parse_form("phone=1&phone=2&junk&age=+42&=x");
    assert_eq!(d.first_name, "");
    assert_eq!(d.last_name, "");
    assert_eq!(d.phone, "2");
    assert_eq!(d.address, "");
    // A '+' decodes to a space, so the age text is " 42", read as 42 after trimming.
    assert_eq!(d.age_raw, " 42");
    assert_eq!(d.age, 42);
}

#[test]
fn parse_form_value_keeps_later_equals_signs() {
    let d = parse_form("address=a=b&first_name=");
    assert_eq!(d.address, "a=b");
    assert_eq!(d.first_name, "");
}

#[test]
fn parse_form_encoded_plus_becomes_space() {
    // "%2B" decodes to '+', which is then read as a space.
    let d = parse_form("first_name=A%2BB");
    assert_eq!(d.first_name, "A B");
}

#[test]
fn parse_form_invalid_utf8_gives_empty() {
    let d = parse_form("first_name=%FF%FE&last_name=ok");
    assert_eq!(d.first_name, "");
    assert_eq!(d.last_name, "ok");
}

#[test]
fn parse_form_age_out_of_range_reads_zero() {
    let d = parse_form("age=99999999999999999999");
    assert_eq!(d.age, 0);
    assert_eq!(
        validate(&FormData { age_raw: d.age_raw.clone(), age: d.age, ..good() }),
        vec!["Age must be between 1 and 150 (got 0).".to_string()]
    );
    let d = parse_form("age=abc");
    assert_eq!(d.age, 0);
}

#[test]
fn percent_escapes_decode_to_bytes() {
    let d = parse_form("first_name=%4a%61nis&last_name=%zz%4&phone=%2");
    assert_eq!(d.first_name, "Janis");
    assert_eq!(d.last_name, "%zz%4");
    assert_eq!(d.phone, "%2");
}

#[test]
fn unicode_whitespace_is_trimmed() {
    let mut d = good();
    d.phone = "\u{3000}\u{2028}12345678\u{85}\u{a0}".to_string();
    assert!(validate(&d).is_empty());
    d.phone = "\u{200b}12345678".to_string();
    assert_eq!(
        validate(&d),
        vec!["Phone Number must contain only numeric digits (no spaces, dashes, or symbols).".to_string()]
    );
}
