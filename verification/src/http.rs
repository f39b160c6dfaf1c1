//! The HTTP side of the registry: reading the request text, deciding what to
//! answer, and writing the response text. Reading from and writing to the
//! socket, and the database, stay with the caller.

use vstd::prelude::*;
use vstd::string::*;
use vstd::utf8::{decode_utf8, encode_utf8, valid_utf8};

use crate::form::{
    address_valid, age_valid, age_value, form_errors, form_field, form_is_valid,
    lemma_no_errors_iff_valid, lemma_script_letter_form_accepted, parse_form, parsed_from,
    phone_valid, script_letter_name, texts, validate, FormData,
};
use crate::html::{form_html, page_html, render_form, render_table, full_page, table_html, timestamp_cuttable, Record};
use crate::text::{
    chars_eq, chars_of, decimal, decimal_u64, find, find_char, find_chars, is_whitespace,
    push_chars, string_of, sub_chars, trim_start, unicode_whitespace,
};

verus! {

// ── Reading the request ─────────────────────────────────────────────────────

/// The number of leading non-whitespace characters of `s`.
pub open spec fn word_len(s: Seq<char>) -> nat
    decreases s.len(),
{
    if s.len() > 0 && !unicode_whitespace(s[0]) {
        1 + word_len(s.drop_first())
    } else {
        0
    }
}

/// The first two whitespace-separated words of `s` (`split_whitespace`), when there are two.
pub open spec fn first_two_words(s: Seq<char>) -> Option<(Seq<char>, Seq<char>)> {
    let t1 = trim_start(s);
    let n1 = word_len(t1);
    let t2 = trim_start(t1.skip(n1 as int));
    let n2 = word_len(t2);
    if t1.len() == 0 || t2.len() == 0 {
        None
    } else {
        Some((t1.take(n1 as int), t2.take(n2 as int)))
    }
}

/// The line break of HTTP.
pub open spec fn crlf() -> Seq<char> {
    seq!['\r', '\n']
}

/// The blank line that ends the HTTP headers.
pub open spec fn blank_line() -> Seq<char> {
    seq!['\r', '\n', '\r', '\n']
}

/// The method, path and body of the request text `raw`: the method and the
/// path are the first two words of the first line, and the body is what
/// follows the first blank line after it (empty when there is none).
pub open spec fn request_parts(raw: Seq<char>) -> Option<(Seq<char>, Seq<char>, Seq<char>)> {
    let i = find(raw, crlf());
    let line = if i >= 0 {
        raw.take(i)
    } else {
        raw
    };
    let rest = if i >= 0 {
        raw.skip(i + 2)
    } else {
        Seq::<char>::empty()
    };
    let j = find(rest, blank_line());
    let body = if j >= 0 {
        rest.skip(j + 4)
    } else {
        Seq::<char>::empty()
    };
    match first_two_words(line) {
        Some((method, path)) => Some((method, path, body)),
        None => None,
    }
}

/// The first index at or after `from` that holds no whitespace.
fn skip_whitespace(s: &Vec<char>, from: usize) -> (r: usize)
    requires
        from <= s.len(),
    ensures
        from <= r <= s.len(),
        s@.subrange(r as int, s@.len() as int) == trim_start(s@.subrange(from as int, s@.len() as int)),
{
    let n = s.len();
    let mut a = from;
    while a < n && is_whitespace(s[a])
        invariant
            from <= a <= n == s.len(),
            trim_start(s@.subrange(from as int, n as int)) == trim_start(s@.subrange(a as int, n as int)),
        decreases n - a,
    {
        assert(s@.subrange(a as int, n as int).drop_first() =~= s@.subrange(a + 1, n as int));
        a = a + 1;
    }
    a
}

/// The end of the run of non-whitespace characters starting at `from`.
fn word_end(s: &Vec<char>, from: usize) -> (r: usize)
    requires
        from <= s.len(),
    ensures
        from <= r <= s.len(),
        r - from == word_len(s@.subrange(from as int, s@.len() as int)),
{
    let n = s.len();
    let mut i = from;
    while i < n && !is_whitespace(s[i])
        invariant
            from <= i <= n == s.len(),
            word_len(s@.subrange(from as int, n as int)) == (i - from) + word_len(s@.subrange(i as int, n as int)),
        decreases n - i,
    {
        assert(s@.subrange(i as int, n as int).drop_first() =~= s@.subrange(i + 1, n as int));
        i = i + 1;
    }
    i
}

/// Splits the request text into method, path and body: the method and path
/// are the first two whitespace-separated words of the first line; the body
/// is everything after the first blank line that follows. `None` when the
/// first line has fewer than two words.
pub fn parse_request(raw: &str) -> (r: Option<(String, String, String)>)
    ensures
        match r {
            Some((m, p, b)) => request_parts(raw@) == Some((m@, p@, b@)),
            None => request_parts(raw@) is None,
        },
{
    let chars = chars_of(raw);
    let mut nl: Vec<char> = Vec::new();
    nl.push('\r');
    nl.push('\n');
    assert(nl@ =~= crlf());
    let (line, rest) = match find_chars(&chars, &nl) {
        Some(i) => {
            proof {
                crate::text::lemma_find(chars@, crlf());
            }
            let n = chars.len();
            let line = sub_chars(&chars, 0, i);
            let rest = sub_chars(&chars, i + 2, n);
            assert(line@ =~= chars@.take(i as int));
            assert(rest@ =~= chars@.skip(i + 2));
            (line, rest)
        },
        None => {
            let line = sub_chars(&chars, 0, chars.len());
            assert(line@ =~= chars@);
            (line, Vec::new())
        },
    };
    let mut blank: Vec<char> = Vec::new();
    blank.push('\r');
    blank.push('\n');
    blank.push('\r');
    blank.push('\n');
    assert(blank@ =~= blank_line());
    let body: Vec<char> = match find_chars(&rest, &blank) {
        Some(j) => {
            proof {
                crate::text::lemma_find(rest@, blank_line());
            }
            let n = rest.len();
            let b = sub_chars(&rest, j + 4, n);
            assert(b@ =~= rest@.skip(j + 4));
            b
        },
        None => Vec::new(),
    };
    let n = line.len();
    assert(line@.subrange(0, n as int) =~= line@);
    let a1 = skip_whitespace(&line, 0);
    let e1 = word_end(&line, a1);
    let a2 = skip_whitespace(&line, e1);
    let e2 = word_end(&line, a2);
    let ghost t1 = trim_start(line@);
    assert(t1 == line@.subrange(a1 as int, n as int));
    assert(t1.skip(e1 - a1) =~= line@.subrange(e1 as int, n as int));
    if a1 == n || a2 == n {
        return None;
    }
    let method = sub_chars(&line, a1, e1);
    let path = sub_chars(&line, a2, e2);
    assert(method@ =~= t1.take(e1 - a1));
    assert(path@ =~= line@.subrange(a2 as int, n as int).take(e2 - a2));
    Some((string_of(&method), string_of(&path), string_of(&body)))
}



/// What `String::from_utf8_lossy` gives for `bytes`.
pub uninterp spec fn utf8_lossy(bytes: Seq<u8>) -> Seq<char>;

/// Calls `String::from_utf8_lossy`. The contract claims that the text is a
/// function of the bytes (named `utf8_lossy`), and that valid UTF-8 is read
/// as it is (its documentation: such input comes back unchanged). How each
/// invalid sequence becomes U+FFFD is not restated.
#[verifier::external_body]
fn lossy_text(bytes: &[u8]) -> (r: String)
    ensures
        r@ == utf8_lossy(bytes@),
        valid_utf8(bytes@) ==> r@ == decode_utf8(bytes@),
{
    String::from_utf8_lossy(bytes).into_owned()
}

/// Reads the raw request bytes as text, with invalid UTF-8 replaced, and
/// splits it as [`parse_request`] does.
pub fn parse_request_bytes(bytes: &[u8]) -> (r: Option<(String, String, String)>)
    ensures
        match r {
            Some((m, p, b)) => request_parts(utf8_lossy(bytes@)) == Some((m@, p@, b@)),
            None => request_parts(utf8_lossy(bytes@)) is None,
        },
        valid_utf8(bytes@) ==> utf8_lossy(bytes@) == decode_utf8(bytes@),
{
    let raw = lossy_text(bytes);
    parse_request(raw.as_str())
}

// ── Writing the response ────────────────────────────────────────────────────

/// The full HTTP response with status line `status` and HTML `body`, whose
/// `Content-Length` is the number of UTF-8 bytes of the body.
pub open spec fn response_bytes_text(status: Seq<char>, body: Seq<char>) -> Seq<char> {
    "HTTP/1.1 "@ + status + "\r\nContent-Type: text/html; charset=utf-8\r\nContent-Length: "@
        + decimal(encode_utf8(body).len()) + "\r\nConnection: close\r\n\r\n"@ + body
}

/// The `303 See Other` response that sends the browser to `location`.
pub open spec fn redirect_bytes_text(location: Seq<char>) -> Seq<char> {
    "HTTP/1.1 303 See Other\r\nLocation: "@ + location
        + "\r\nContent-Length: 0\r\nConnection: close\r\n\r\n"@
}

/// The text of an HTML response with the given status line and body.
pub fn response_text(status: &str, body: &str) -> (r: String)
    requires
        encode_utf8(body@).len() <= usize::MAX,
    ensures
        r@ == response_bytes_text(status@, body@),
{
    let mut r = String::from_str("HTTP/1.1 ");
    r.append(status);
    r.append("\r\nContent-Type: text/html; charset=utf-8\r\nContent-Length: ");
    let len = body.len();
    push_chars(&mut r, &decimal_u64(len as u64));
    r.append("\r\nConnection: close\r\n\r\n");
    r.append(body);
    assert(r@ =~= response_bytes_text(status@, body@));
    r
}

/// The text of a `303 See Other` response to `location`.
pub fn redirect_text(location: &str) -> (r: String)
    ensures
        r@ == redirect_bytes_text(location@),
{
    let mut r = String::from_str("HTTP/1.1 303 See Other\r\nLocation: ");
    r.append(location);
    r.append("\r\nContent-Length: 0\r\nConnection: close\r\n\r\n");
    r
}

// ── Deciding what to answer ─────────────────────────────────────────────────

/// What to do for one request.
pub enum Outcome {
    /// Answer with this status line and HTML body.
    Respond { status: String, body: String },
    /// Answer with this status line and the page built from the form `data`,
    /// the messages `errors`, the stored records, and the toast when asked for.
    Page { status: String, data: FormData, errors: Vec<String>, show_toast: bool },
    /// Store `data`, then send the browser to `location`.
    Store { data: FormData, location: String },
}

/// The path without its query: what comes before the first `?`.
pub open spec fn route(path: Seq<char>) -> Seq<char> {
    let q = find(path, seq!['?']);
    if q >= 0 {
        path.take(q)
    } else {
        path
    }
}

/// The query of the path: what follows the first `?` (empty when there is none).
pub open spec fn query(path: Seq<char>) -> Seq<char> {
    let q = find(path, seq!['?']);
    if q >= 0 {
        path.skip(q + 1)
    } else {
        Seq::<char>::empty()
    }
}

/// The query asks for the "entry committed" toast: it contains `ok=1`.
pub open spec fn toast_requested(path: Seq<char>) -> bool {
    find(query(path), "ok=1"@) >= 0
}

/// Where the browser is sent after an entry has been stored.
pub open spec fn stored_location() -> Seq<char> {
    "/?ok=1"@
}

/// `d` is an empty form.
pub open spec fn blank_form(d: FormData) -> bool {
    &&& d.first_name@.len() == 0
    &&& d.last_name@.len() == 0
    &&& d.phone@.len() == 0
    &&& d.address@.len() == 0
    &&& d.age_raw@.len() == 0
    &&& d.age == 0
}

/// Decides how to answer a request with the given method, path and body.
/// Only the path `/` is served (404 otherwise). `GET` shows the blank form and
/// the entries (200). `POST` reads the form from the body and validates it: a
/// valid form is stored and the browser is sent to `/?ok=1`; an invalid one is
/// shown again with its messages (400). Other methods get 405. The toast is
/// shown when the query contains `ok=1`.
pub fn handle_request(method: &str, path: &str, body: &str) -> (r: Outcome)
    ensures
        route(path@) != "/"@ ==> (r matches Outcome::Respond { status, body } && status@
            == "404 Not Found"@ && body@ == "<h1>404</h1>"@),
        route(path@) == "/"@ && method@ == "GET"@ ==> (r matches Outcome::Page {
            status,
            data,
            errors,
            show_toast,
        } && status@ == "200 OK"@ && blank_form(data) && errors@.len() == 0 && show_toast
            == toast_requested(path@)),
        route(path@) == "/"@ && method@ == "POST"@ ==> match r {
            Outcome::Store { data, location } => {
                &&& parsed_from(data, body@)
                &&& form_is_valid(data)
                &&& form_errors(data).len() == 0
                &&& location@ == stored_location()
            },
            Outcome::Page { status, data, errors, show_toast } => {
                &&& parsed_from(data, body@)
                &&& !form_is_valid(data)
                &&& status@ == "400 Bad Request"@
                &&& texts(errors@) == form_errors(data)
                &&& errors@.len() > 0
                &&& show_toast == toast_requested(path@)
            },
            Outcome::Respond { .. } => false,
        },
        route(path@) == "/"@ && method@ == "POST"@ && script_letter_name(
            form_field(body@, "first_name"@),
        ) && script_letter_name(form_field(body@, "last_name"@)) && phone_valid(
            form_field(body@, "phone"@),
        ) && address_valid(form_field(body@, "address"@)) && age_valid(
            form_field(body@, "age"@),
            age_value(form_field(body@, "age"@)),
        ) ==> (r matches Outcome::Store { location, .. } && location@ == stored_location()),
        route(path@) == "/"@ && method@ != "GET"@ && method@ != "POST"@ ==> (
        r matches Outcome::Respond { status, body } && status@ == "405 Method Not Allowed"@
            && body@.len() == 0),
{
    let p = chars_of(path);
    let (route_chars, query_chars) = match find_char(&p, '?') {
        Some(q) => {
            proof {
                crate::text::lemma_find(p@, seq!['?']);
                assert(seq!['?'].len() == 1);
                assert(crate::text::occurs_at(p@, seq!['?'], q as int));
            }
            let n = p.len();
            let r = sub_chars(&p, 0, q);
            let after: usize = q + 1;
            let qu = sub_chars(&p, after, n);
            assert(r@ =~= p@.take(q as int));
            assert(qu@ =~= p@.skip(q + 1));
            (r, qu)
        },
        None => {
            let r = sub_chars(&p, 0, p.len());
            assert(r@ =~= p@);
            (r, Vec::new())
        },
    };
    if !chars_eq(&route_chars, &chars_of("/")) {
        return Outcome::Respond {
            status: String::from_str("404 Not Found"),
            body: String::from_str("<h1>404</h1>"),
        };
    }
    let show_toast = find_chars(&query_chars, &chars_of("ok=1")).is_some();
    let m = chars_of(method);
    proof {
        reveal_strlit("GET");
        reveal_strlit("POST");
        assert("GET"@ != "POST"@) by {
            assert("GET"@.len() != "POST"@.len());
        }
    }
    if chars_eq(&m, &chars_of("GET")) {
        let data = FormData::default();
        Outcome::Page {
            status: String::from_str("200 OK"),
            data,
            errors: Vec::new(),
            show_toast,
        }
    } else if chars_eq(&m, &chars_of("POST")) {
        let data = parse_form(body);
        let errors = validate(&data);
        proof {
            lemma_no_errors_iff_valid(data);
            if script_letter_name(data.first_name@) && script_letter_name(data.last_name@)
                && phone_valid(data.phone@) && address_valid(data.address@) && age_valid(
                data.age_raw@,
                data.age,
            ) {
                lemma_script_letter_form_accepted(data);
            }
        }
        if errors.len() == 0 {
            Outcome::Store { data, location: String::from_str("/?ok=1") }
        } else {
            Outcome::Page {
                status: String::from_str("400 Bad Request"),
                data,
                errors,
                show_toast,
            }
        }
    } else {
        Outcome::Respond {
            status: String::from_str("405 Method Not Allowed"),
            body: String::new(),
        }
    }
}


/// After an entry is stored the browser is sent to a location that the form
/// page serves, with the "entry committed" toast shown.
pub proof fn lemma_stored_location_shows_toast()
    ensures
        route(stored_location()) == "/"@,
        toast_requested(stored_location()),
{
    reveal_strlit("/?ok=1");
    reveal_strlit("/");
    reveal_strlit("ok=1");
    let s = stored_location();
    let q = seq!['?'];
    assert(s.take(1) != q) by {
        assert(s.take(1)[0] == '/');
    }
    assert(s.drop_first().take(1) =~= q);
    assert(find(s.drop_first(), q) == 0);
    assert(find(s, q) == 1);
    assert(route(s) =~= "/"@);
    assert(query(s) =~= "ok=1"@);
    assert(query(s).take("ok=1"@.len() as int) =~= "ok=1"@);
}

/// The page for the form `data` with `errors`, the `records` table and the
/// entry count, with the toast when `show_toast` holds.
pub fn render_page(data: &FormData, errors: &[String], records: &[Record], show_toast: bool) -> (r: String)
    requires
        forall|i: int| 0 <= i < records@.len() ==> #[trigger] timestamp_cuttable(
            records@[i].created_at@,
        ),
    ensures
        r@ == page_html(
            form_html(*data, texts(errors@), false),
            table_html(records@),
            records@.len(),
            show_toast,
        ),
{
    let form = render_form(data, errors, false);
    let table = render_table(records);
    full_page(form.as_str(), table.as_str(), records.len(), show_toast)
}

} // verus!
