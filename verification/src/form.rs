//! The submitted form: its fields, their validation rules, and how they are read
//! from an `application/x-www-form-urlencoded` body.

use vstd::prelude::*;
use vstd::string::*;

use vstd::utf8::{decode_utf8, encode_utf8, valid_utf8};

use crate::text::{
    all_ascii_digits, ascii_digit, chars_eq, chars_of, decimal, decimal_i64, decimal_int,
    decimal_u64, find, find_char, is_letter, is_ascii_digit, parse_i64, parse_i64_chars,
    push_chars, some_alphabetic, some_ascii_digit, split_at_char, split_chars, string_of,
    sub_chars, trim, trim_chars, trimmed_chars, alphabetic,
};

verus! {

/// The fields of one submitted entry, as text, plus the parsed age.
pub struct FormData {
    pub first_name: String,
    pub last_name: String,
    pub phone: String,
    pub address: String,
    pub age: i64,
    pub age_raw: String,
}

impl Default for FormData {
    /// An empty form: every text field empty and the age zero.
    fn default() -> (r: FormData)
        ensures
            r.first_name@ == Seq::<char>::empty(),
            r.last_name@ == Seq::<char>::empty(),
            r.phone@ == Seq::<char>::empty(),
            r.address@ == Seq::<char>::empty(),
            r.age == 0,
            r.age_raw@ == Seq::<char>::empty(),
    {
        FormData {
            first_name: String::new(),
            last_name: String::new(),
            phone: String::new(),
            address: String::new(),
            age: 0,
            age_raw: String::new(),
        }
    }
}

/// The texts of a sequence of strings.
pub open spec fn texts(v: Seq<String>) -> Seq<Seq<char>> {
    v.map_values(|s: String| s@)
}

// ── Rules ───────────────────────────────────────────────────────────────────

/// Letters (any Unicode alphabetic character), hyphens and apostrophes.
pub open spec fn name_char(c: char) -> bool {
    alphabetic(c) || c == '-' || c == '\''
}

/// Every character of `s` may stand in a name.
pub open spec fn all_name_chars(s: Seq<char>) -> bool {
    forall|i: int| 0 <= i < s.len() ==> #[trigger] name_char(s[i])
}

/// Whether `c` may stand in a name: a letter (including all Unicode accented
/// letters), a hyphen or an apostrophe.
pub fn is_valid_name_char(c: char) -> (r: bool)
    ensures
        r == name_char(c),
{
    is_letter(c) || c == '-' || c == '\''
}

/// The error messages for a name field labelled `label` holding `raw`.
pub open spec fn name_errors(label: Seq<char>, raw: Seq<char>) -> Seq<Seq<char>> {
    let t = trim(raw);
    if t.len() == 0 {
        seq![label + " is required."@]
    } else if t.len() < 2 {
        seq![label + " must be at least 2 characters."@]
    } else if t.len() > 50 {
        seq![label + " must not exceed 50 characters."@]
    } else if !all_name_chars(t) {
        seq![label + " must contain only letters, hyphens, or apostrophes (no digits or symbols)."@]
    } else {
        seq![]
    }
}

/// The error messages for the phone field holding `raw`.
pub open spec fn phone_errors(raw: Seq<char>) -> Seq<Seq<char>> {
    let t = trim(raw);
    if t.len() == 0 {
        seq!["Phone Number is required."@]
    } else if !all_ascii_digits(t) {
        seq!["Phone Number must contain only numeric digits (no spaces, dashes, or symbols)."@]
    } else if t.len() != 8 {
        seq!["Phone Number must be exactly 8 digits (got "@ + decimal(t.len()) + ")."@]
    } else {
        seq![]
    }
}

/// The error messages for the address field holding `raw`.
pub open spec fn address_errors(raw: Seq<char>) -> Seq<Seq<char>> {
    let t = trim(raw);
    if t.len() == 0 {
        seq!["Address is required."@]
    } else if t.len() < 5 {
        seq!["Address must be at least 5 characters."@]
    } else if t.len() > 200 {
        seq!["Address must not exceed 200 characters."@]
    } else {
        (if !some_alphabetic(t) {
            seq!["Address must include a street name (at least one letter)."@]
        } else {
            Seq::<Seq<char>>::empty()
        }) + (if !some_ascii_digit(t) {
            seq!["Address must include a street number (at least one digit)."@]
        } else {
            Seq::<Seq<char>>::empty()
        })
    }
}

/// The error messages for the age field holding `raw`, whose parsed value is `age`.
pub open spec fn age_errors(raw: Seq<char>, age: i64) -> Seq<Seq<char>> {
    let t = trim(raw);
    if t.len() == 0 {
        seq!["Age is required."@]
    } else if !all_ascii_digits(t) {
        seq!["Age must be a whole number with no letters or symbols."@]
    } else if age < 1 || age > 150 {
        seq!["Age must be between 1 and 150 (got "@ + decimal_int(age as int) + ")."@]
    } else {
        seq![]
    }
}

/// All error messages for a form, field by field in form order.
pub open spec fn form_errors(d: FormData) -> Seq<Seq<char>> {
    name_errors("First Name"@, d.first_name@) + name_errors("Last Name"@, d.last_name@)
        + phone_errors(d.phone@) + address_errors(d.address@) + age_errors(d.age_raw@, d.age)
}

// ── Checks ──────────────────────────────────────────────────────────────────

fn all_name_chars_exec(t: &Vec<char>) -> (r: bool)
    ensures
        r == all_name_chars(t@),
{
    for i in 0..t.len()
        invariant
            forall|j: int| 0 <= j < i ==> #[trigger] name_char(t@[j]),
    {
        if !is_valid_name_char(t[i]) {
            return false;
        }
    }
    true
}

fn all_ascii_digits_exec(t: &Vec<char>) -> (r: bool)
    ensures
        r == all_ascii_digits(t@),
{
    for i in 0..t.len()
        invariant
            forall|j: int| 0 <= j < i ==> #[trigger] is_ascii_digit(t@[j]),
    {
        if !ascii_digit(t[i]) {
            return false;
        }
    }
    true
}

fn some_ascii_digit_exec(t: &Vec<char>) -> (r: bool)
    ensures
        r == some_ascii_digit(t@),
{
    for i in 0..t.len()
        invariant
            forall|j: int| 0 <= j < i ==> !#[trigger] is_ascii_digit(t@[j]),
    {
        if ascii_digit(t[i]) {
            return true;
        }
    }
    false
}

fn some_alphabetic_exec(t: &Vec<char>) -> (r: bool)
    ensures
        r == some_alphabetic(t@),
{
    for i in 0..t.len()
        invariant
            forall|j: int| 0 <= j < i ==> !#[trigger] alphabetic(t@[j]),
    {
        if is_letter(t[i]) {
            return true;
        }
    }
    false
}

/// `label` followed by `tail`.
fn message(label: &str, tail: &str) -> (m: String)
    ensures
        m@ == label@ + tail@,
{
    let mut m = String::from_str(label);
    m.append(tail);
    m
}

fn push_message(errors: &mut Vec<String>, m: String)
    ensures
        texts(final(errors)@) == texts(old(errors)@) + seq![m@],
{
    errors.push(m);
    assert(texts(errors@) =~= texts(old(errors)@) + seq![m@]);
}

fn check_name(label: &str, raw: &str, errors: &mut Vec<String>)
    ensures
        texts(final(errors)@) == texts(old(errors)@) + name_errors(label@, raw@),
{
    let t = trimmed_chars(raw);
    let n = t.len();
    if n == 0 {
        push_message(errors, message(label, " is required."));
    } else if n < 2 {
        push_message(errors, message(label, " must be at least 2 characters."));
    } else if n > 50 {
        push_message(errors, message(label, " must not exceed 50 characters."));
    } else if !all_name_chars_exec(&t) {
        push_message(
            errors,
            message(label, " must contain only letters, hyphens, or apostrophes (no digits or symbols)."),
        );
    } else {
        assert(texts(errors@) =~= texts(old(errors)@) + name_errors(label@, raw@));
    }
}

fn check_phone(raw: &str, errors: &mut Vec<String>)
    ensures
        texts(final(errors)@) == texts(old(errors)@) + phone_errors(raw@),
{
    let t = trimmed_chars(raw);
    if t.len() == 0 {
        push_message(errors, String::from_str("Phone Number is required."));
    } else if !all_ascii_digits_exec(&t) {
        push_message(
            errors,
            String::from_str("Phone Number must contain only numeric digits (no spaces, dashes, or symbols)."),
        );
    } else if t.len() != 8 {
        let mut m = String::from_str("Phone Number must be exactly 8 digits (got ");
        push_chars(&mut m, &decimal_u64(t.len() as u64));
        m.append(").");
        push_message(errors, m);
    } else {
        assert(texts(errors@) =~= texts(old(errors)@) + phone_errors(raw@));
    }
}

fn check_address(raw: &str, errors: &mut Vec<String>)
    ensures
        texts(final(errors)@) == texts(old(errors)@) + address_errors(raw@),
{
    let t = trimmed_chars(raw);
    let n = t.len();
    if n == 0 {
        push_message(errors, String::from_str("Address is required."));
    } else if n < 5 {
        push_message(errors, String::from_str("Address must be at least 5 characters."));
    } else if n > 200 {
        push_message(errors, String::from_str("Address must not exceed 200 characters."));
    } else {
        if !some_alphabetic_exec(&t) {
            push_message(
                errors,
                String::from_str("Address must include a street name (at least one letter)."),
            );
        }
        if !some_ascii_digit_exec(&t) {
            push_message(
                errors,
                String::from_str("Address must include a street number (at least one digit)."),
            );
        }
        assert(texts(errors@) =~= texts(old(errors)@) + address_errors(raw@));
    }
}

fn check_age(raw: &str, age: i64, errors: &mut Vec<String>)
    ensures
        texts(final(errors)@) == texts(old(errors)@) + age_errors(raw@, age),
{
    let t = trimmed_chars(raw);
    if t.len() == 0 {
        push_message(errors, String::from_str("Age is required."));
    } else if !all_ascii_digits_exec(&t) {
        push_message(
            errors,
            String::from_str("Age must be a whole number with no letters or symbols."),
        );
    } else if age < 1 || age > 150 {
        let mut m = String::from_str("Age must be between 1 and 150 (got ");
        push_chars(&mut m, &decimal_i64(age));
        m.append(").");
        push_message(errors, m);
    } else {
        assert(texts(errors@) =~= texts(old(errors)@) + age_errors(raw@, age));
    }
}

/// Checks every field of `data` and returns one message per broken rule, in
/// form order: first name, last name, phone, address, age. The result is empty
/// exactly when the form may be stored.
pub fn validate(data: &FormData) -> (errors: Vec<String>)
    ensures
        texts(errors@) == form_errors(*data),
        errors@.len() == 0 <==> form_is_valid(*data),
        script_letter_name(data.first_name@) && script_letter_name(data.last_name@) && phone_valid(
            data.phone@,
        ) && address_valid(data.address@) && age_valid(data.age_raw@, data.age) ==> errors@.len()
            == 0,
{
    let mut errors: Vec<String> = Vec::new();
    assert(texts(errors@) =~= Seq::<Seq<char>>::empty());
    check_name("First Name", data.first_name.as_str(), &mut errors);
    check_name("Last Name", data.last_name.as_str(), &mut errors);
    check_phone(data.phone.as_str(), &mut errors);
    check_address(data.address.as_str(), &mut errors);
    check_age(data.age_raw.as_str(), data.age, &mut errors);
    assert(texts(errors@) =~= form_errors(*data));
    proof {
        lemma_no_errors_iff_valid(*data);
        if script_letter_name(data.first_name@) && script_letter_name(data.last_name@)
            && phone_valid(data.phone@) && address_valid(data.address@) && age_valid(
            data.age_raw@,
            data.age,
        ) {
            lemma_script_letter_form_accepted(*data);
        }
    }
    errors
}


// ── The rules as a whole ────────────────────────────────────────────────────

/// A name holds 2 to 50 characters after trimming, all letters, hyphens or apostrophes.
pub open spec fn name_valid(raw: Seq<char>) -> bool {
    let t = trim(raw);
    2 <= t.len() <= 50 && all_name_chars(t)
}

/// A phone number is exactly 8 ASCII digits after trimming.
pub open spec fn phone_valid(raw: Seq<char>) -> bool {
    let t = trim(raw);
    t.len() == 8 && all_ascii_digits(t)
}

/// An address holds 5 to 200 characters after trimming, with a letter and a digit.
pub open spec fn address_valid(raw: Seq<char>) -> bool {
    let t = trim(raw);
    5 <= t.len() <= 200 && some_alphabetic(t) && some_ascii_digit(t)
}

/// An age is a non-empty run of ASCII digits after trimming, with a value from 1 to 150.
pub open spec fn age_valid(raw: Seq<char>, age: i64) -> bool {
    let t = trim(raw);
    t.len() > 0 && all_ascii_digits(t) && 1 <= age <= 150
}

/// Every field of the form meets its rule.
pub open spec fn form_is_valid(d: FormData) -> bool {
    &&& name_valid(d.first_name@)
    &&& name_valid(d.last_name@)
    &&& phone_valid(d.phone@)
    &&& address_valid(d.address@)
    &&& age_valid(d.age_raw@, d.age)
}

/// Validation reports no error exactly when every field meets its rule: a form
/// is accepted if and only if its names, phone number, address and age are all
/// well formed.
pub proof fn lemma_no_errors_iff_valid(d: FormData)
    ensures
        form_errors(d).len() == 0 <==> form_is_valid(d),
{
    assert(name_errors("First Name"@, d.first_name@).len() == 0 <==> name_valid(d.first_name@));
    assert(name_errors("Last Name"@, d.last_name@).len() == 0 <==> name_valid(d.last_name@));
    assert(phone_errors(d.phone@).len() == 0 <==> phone_valid(d.phone@));
    assert(address_errors(d.address@).len() == 0 <==> address_valid(d.address@));
    assert(age_errors(d.age_raw@, d.age).len() == 0 <==> age_valid(d.age_raw@, d.age));
}

/// Each field contributes at most one message, except the address, which can
/// lack both a letter and a digit and so contribute two.
pub proof fn lemma_messages_per_field(d: FormData)
    ensures
        name_errors("First Name"@, d.first_name@).len() <= 1,
        name_errors("Last Name"@, d.last_name@).len() <= 1,
        phone_errors(d.phone@).len() <= 1,
        address_errors(d.address@).len() <= 2,
        age_errors(d.age_raw@, d.age).len() <= 1,
        form_errors(d).len() <= 6,
{
}


// ── Reading the form body ───────────────────────────────────────────────────

/// The value of the ASCII hexadecimal digit `b` (`0-9`, `A-F`, `a-f`).
pub open spec fn hex_value(b: u8) -> Option<u8> {
    if 48 <= b <= 57 {
        Some((b - 48) as u8)
    } else if 65 <= b <= 70 {
        Some((b - 55) as u8)
    } else if 97 <= b <= 102 {
        Some((b - 87) as u8)
    } else {
        None
    }
}

/// Percent-decoding of bytes: a `%` followed by two hexadecimal digits
/// becomes the byte they spell; every other byte stays as it is.
pub open spec fn percent_decode_bytes(b: Seq<u8>) -> Seq<u8>
    decreases b.len(),
{
    if b.len() == 0 {
        Seq::<u8>::empty()
    } else if b[0] == 37 && b.len() >= 3 && hex_value(b[1]) is Some && hex_value(b[2]) is Some {
        seq![(hex_value(b[1])->0 * 16 + hex_value(b[2])->0) as u8] + percent_decode_bytes(
            b.skip(3),
        )
    } else {
        seq![b[0]] + percent_decode_bytes(b.drop_first())
    }
}

/// What `urlencoding::decode` gives for `s`: its UTF-8 bytes percent-decoded,
/// read back as text, or `None` where the decoded bytes are not valid UTF-8.
pub open spec fn url_decode(s: Seq<char>) -> Option<Seq<char>> {
    let b = percent_decode_bytes(encode_utf8(s));
    if valid_utf8(b) {
        Some(decode_utf8(b))
    } else {
        None
    }
}

/// Calls `urlencoding::decode`. The contract claims that it percent-decodes
/// the UTF-8 bytes of `s` (`%` and two hexadecimal digits give one byte, every
/// other byte stays, `+` included) and fails exactly when the result is not
/// valid UTF-8, as [`url_decode`] states.
#[verifier::external_body]
fn percent_decode(s: &str) -> (r: Option<String>)
    ensures
        match r {
            Some(d) => url_decode(s@) == Some(d@),
            None => url_decode(s@) is None,
        },
{
    match urlencoding::decode(s) {
        Ok(d) => Some(d.into_owned()),
        Err(_) => None,
    }
}

/// `s` with every `+` turned into a space.
pub open spec fn plus_to_space(s: Seq<char>) -> Seq<char> {
    s.map_values(|c: char| if c == '+' { ' ' } else { c })
}

/// One key or value of the body: percent-decoded (nothing where that fails),
/// then with `+` read as a space.
pub open spec fn decode_component(s: Seq<char>) -> Seq<char> {
    plus_to_space(
        match url_decode(s) {
            Some(d) => d,
            None => Seq::<char>::empty(),
        },
    )
}

/// The value given for `key` by the `key=value` pieces, where the last piece
/// with that decoded key wins; pieces without `=` are ignored.
pub open spec fn field_value(pieces: Seq<Seq<char>>, key: Seq<char>) -> Option<Seq<char>>
    decreases pieces.len(),
{
    if pieces.len() == 0 {
        None
    } else {
        let p = pieces.last();
        let i = find(p, seq!['=']);
        if i >= 0 && decode_component(p.take(i)) == key {
            Some(decode_component(p.skip(i + 1)))
        } else {
            field_value(pieces.drop_last(), key)
        }
    }
}

/// The value of field `key` in the body, or the empty text when it is absent.
pub open spec fn form_field(body: Seq<char>, key: Seq<char>) -> Seq<char> {
    match field_value(split_at_char(body, '&'), key) {
        Some(v) => v,
        None => Seq::<char>::empty(),
    }
}

/// The age read from its raw text: the trimmed text as an `i64`, or 0 where it is not one.
pub open spec fn age_value(raw: Seq<char>) -> i64 {
    match parse_i64(trim(raw)) {
        Some(v) => v,
        None => 0,
    }
}

/// `d` holds the fields of `body`: each text field is the body's value for its
/// key, and the age is read from the age text.
pub open spec fn parsed_from(d: FormData, body: Seq<char>) -> bool {
    &&& d.first_name@ == form_field(body, "first_name"@)
    &&& d.last_name@ == form_field(body, "last_name"@)
    &&& d.phone@ == form_field(body, "phone"@)
    &&& d.address@ == form_field(body, "address"@)
    &&& d.age_raw@ == form_field(body, "age"@)
    &&& d.age == age_value(d.age_raw@)
}

fn decode_chars(raw: &Vec<char>) -> (r: Vec<char>)
    ensures
        r@ == decode_component(raw@),
{
    let s = string_of(raw);
    let d: Vec<char> = match percent_decode(s.as_str()) {
        Some(d) => chars_of(d.as_str()),
        None => Vec::new(),
    };
    let mut r: Vec<char> = Vec::new();
    for i in 0..d.len()
        invariant
            r@ == plus_to_space(d@.take(i as int)),
    {
        let c = d[i];
        r.push(if c == '+' { ' ' } else { c });
        assert(plus_to_space(d@.take(i + 1)) =~= plus_to_space(d@.take(i as int)).push(
            if c == '+' { ' ' } else { c },
        ));
    }
    assert(d@.take(d.len() as int) =~= d@);
    assert(r@ =~= decode_component(raw@));
    r
}

fn copy_chars(v: &Vec<char>) -> (r: Vec<char>)
    ensures
        r@ == v@,
{
    let r = sub_chars(v, 0, v.len());
    assert(v@.subrange(0, v.len() as int) =~= v@);
    r
}

fn take_field(slot: Option<Vec<char>>) -> (r: String)
    ensures
        r@ == match slot {
            Some(v) => v@,
            None => Seq::<char>::empty(),
        },
{
    match slot {
        Some(v) => string_of(&v),
        None => String::new(),
    }
}

/// Reads the fields of an `application/x-www-form-urlencoded` body. The body
/// is cut at `&`; each piece with an `=` is a key and a value, each
/// percent-decoded with `+` read as a space; the last piece with a given key
/// wins. Missing fields are empty, and the age is the trimmed age text read as
/// an integer, or 0 where it is not one.
pub fn parse_form(body: &str) -> (r: FormData)
    ensures
        parsed_from(r, body@),
{
    let chars = chars_of(body);
    let pieces = split_chars(&chars, '&');
    let ghost all = split_at_char(body@, '&');
    let k_first = chars_of("first_name");
    let k_last = chars_of("last_name");
    let k_phone = chars_of("phone");
    let k_address = chars_of("address");
    let k_age = chars_of("age");
    let mut first: Option<Vec<char>> = None;
    let mut last: Option<Vec<char>> = None;
    let mut phone: Option<Vec<char>> = None;
    let mut address: Option<Vec<char>> = None;
    let mut age: Option<Vec<char>> = None;
    assert(all.take(0) =~= Seq::<Seq<char>>::empty());
    for j in 0..pieces.len()
        invariant
            pieces@.len() == all.len(),
            forall|i: int| 0 <= i < pieces@.len() ==> #[trigger] pieces@[i]@ == all[i],
            k_first@ == "first_name"@,
            k_last@ == "last_name"@,
            k_phone@ == "phone"@,
            k_address@ == "address"@,
            k_age@ == "age"@,
            (match first { Some(v) => Some(v@), None => None }) == field_value(all.take(j as int), "first_name"@),
            (match last { Some(v) => Some(v@), None => None }) == field_value(all.take(j as int), "last_name"@),
            (match phone { Some(v) => Some(v@), None => None }) == field_value(all.take(j as int), "phone"@),
            (match address { Some(v) => Some(v@), None => None }) == field_value(all.take(j as int), "address"@),
            (match age { Some(v) => Some(v@), None => None }) == field_value(all.take(j as int), "age"@),
    {
        let p = &pieces[j];
        assert(p@ == all[j as int]);
        assert(all.take(j + 1).drop_last() =~= all.take(j as int));
        assert(all.take(j + 1).last() == all[j as int]);
        if let Some(i) = find_char(p, '=') {
            proof {
                crate::text::lemma_find(p@, seq!['=']);
                assert(seq!['='].len() == 1);
            }
            let plen = p.len();
            let after: usize = i + 1;
            let key_raw = sub_chars(p, 0, i);
            let value_raw = sub_chars(p, after, plen);
            let key = decode_chars(&key_raw);
            let value = decode_chars(&value_raw);
            assert(p@.subrange(0, i as int) =~= p@.take(i as int));
            assert(p@.subrange(i + 1, p@.len() as int) =~= p@.skip(i + 1));
            if chars_eq(&key, &k_first) {
                first = Some(copy_chars(&value));
            }
            if chars_eq(&key, &k_last) {
                last = Some(copy_chars(&value));
            }
            if chars_eq(&key, &k_phone) {
                phone = Some(copy_chars(&value));
            }
            if chars_eq(&key, &k_address) {
                address = Some(copy_chars(&value));
            }
            if chars_eq(&key, &k_age) {
                age = Some(copy_chars(&value));
            }
        }
    }
    assert(all.take(pieces.len() as int) =~= all);
    let age_raw = take_field(age);
    let age_num = match parse_i64_chars(&trim_chars(&chars_of(age_raw.as_str()))) {
        Some(v) => v,
        None => 0,
    };
    FormData {
        first_name: take_field(first),
        last_name: take_field(last),
        phone: take_field(phone),
        address: take_field(address),
        age: age_num,
        age_raw,
    }
}


// ── Letters of every script ─────────────────────────────────────────────────

/// A letter of one of the common alphabets and scripts: the ASCII letters, the
/// Latin-1 letters U+00C0..=U+00FF other than `×` (U+00D7) and `÷` (U+00F7),
/// Latin Extended-A (U+0100..=U+017F, which holds the Latvian letters), the
/// Greek letters U+0391..=U+03A9 and U+03B1..=U+03C9, the Cyrillic letters
/// U+0400..=U+045F, and the letters of the Armenian, Hebrew, basic Arabic,
/// Georgian, Hiragana, Katakana, CJK (U+4E00..=U+9FA5) and Hangul syllable
/// ranges listed in [`in_letter_block`].
pub open spec fn script_letter(c: char) -> bool {
    ||| ('A' <= c && c <= 'Z')
    ||| ('a' <= c && c <= 'z')
    ||| ('\u{c0}' <= c && c <= '\u{ff}' && c != '\u{d7}' && c != '\u{f7}')
    ||| ('\u{100}' <= c && c <= '\u{17f}')
    ||| ('\u{391}' <= c && c <= '\u{3a9}' && c != '\u{3a2}')
    ||| ('\u{3b1}' <= c && c <= '\u{3c9}')
    ||| ('\u{400}' <= c && c <= '\u{45f}')
    ||| ('\u{531}' <= c && c <= '\u{556}')
    ||| ('\u{561}' <= c && c <= '\u{586}')
    ||| ('\u{5d0}' <= c && c <= '\u{5ea}')
    ||| ('\u{621}' <= c && c <= '\u{63a}')
    ||| ('\u{641}' <= c && c <= '\u{64a}')
    ||| ('\u{10d0}' <= c && c <= '\u{10fa}')
    ||| ('\u{3041}' <= c && c <= '\u{3096}')
    ||| ('\u{30a1}' <= c && c <= '\u{30fa}')
    ||| ('\u{4e00}' <= c && c <= '\u{9fa5}')
    ||| ('\u{ac00}' <= c && c <= '\u{d7a3}')
}

/// `raw` is, after trimming, a name of 2 to 50 characters, each a letter of
/// [`script_letter`], a hyphen or an apostrophe.
pub open spec fn script_letter_name(raw: Seq<char>) -> bool {
    let t = trim(raw);
    &&& 2 <= t.len() <= 50
    &&& forall|i: int| 0 <= i < t.len() ==> {
        let c = #[trigger] t[i];
        script_letter(c) || c == '-' || c == '\''
    }
}

/// Every letter of these scripts (the Latin ones accented or not, Greek,
/// Cyrillic and the rest) counts as a letter for the name and address rules.
pub proof fn lemma_script_letters_are_letters(c: char)
    requires
        script_letter(c),
    ensures
        alphabetic(c),
        name_char(c),
{
}

/// A name made of 2 to 50 Latin, Greek or Cyrillic letters (with hyphens and
/// apostrophes) draws no message, whatever its label.
pub proof fn lemma_script_letter_name_accepted(label: Seq<char>, raw: Seq<char>)
    requires
        script_letter_name(raw),
    ensures
        name_valid(raw),
        name_errors(label, raw) == Seq::<Seq<char>>::empty(),
{
    let t = trim(raw);
    assert forall|i: int| 0 <= i < t.len() implies #[trigger] name_char(t[i]) by {
        let c = t[i];
        if script_letter(c) {
            lemma_script_letters_are_letters(c);
        }
    }
    assert(name_errors(label, raw) =~= Seq::<Seq<char>>::empty());
}

/// A form whose names are made of Latin, Greek or Cyrillic letters and whose
/// other fields meet their rules draws no message at all.
pub proof fn lemma_script_letter_form_accepted(d: FormData)
    requires
        script_letter_name(d.first_name@),
        script_letter_name(d.last_name@),
        phone_valid(d.phone@),
        address_valid(d.address@),
        age_valid(d.age_raw@, d.age),
    ensures
        form_is_valid(d),
        form_errors(d) == Seq::<Seq<char>>::empty(),
{
    lemma_script_letter_name_accepted("First Name"@, d.first_name@);
    lemma_script_letter_name_accepted("Last Name"@, d.last_name@);
    lemma_no_errors_iff_valid(d);
    assert(form_errors(d) =~= Seq::<Seq<char>>::empty());
}

} // verus!
