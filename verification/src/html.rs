//! HTML rendering: escaping user text, the error and success banners, the
//! entry form, the records table and the whole page.

use vstd::prelude::*;
use vstd::string::*;
use vstd::utf8::{decode_utf8, encode_utf8, is_char_boundary};

use crate::form::{texts, FormData};
use crate::markup::{
    BADGE_CLOSE, BADGE_OPEN, CSS, EMPTY_STATE, ERRORS_CLOSE, ERRORS_OPEN, FORM_AFTER_ADDRESS,
    FORM_AFTER_FIRST_NAME, FORM_AFTER_LAST_NAME, FORM_AFTER_PHONE, FORM_CLOSE, FORM_OPEN,
    ITEM_CLOSE, ITEM_OPEN, PAGE_AFTER_BADGE, PAGE_AFTER_FORM, PAGE_AFTER_STYLE, PAGE_AFTER_TOAST,
    PAGE_CLOSE, PAGE_OPEN, ROW_AFTER_ADDRESS, ROW_AFTER_AGE, ROW_AFTER_ID, ROW_AFTER_NAME,
    ROW_AFTER_PHONE, ROW_BETWEEN_NAMES, ROW_CLOSE, ROW_OPEN, SUCCESS_BANNER, TABLE_CLOSE,
    TABLE_OPEN, TOAST,
};
use crate::text::{replace_all, chars_of, decimal, decimal_i64, decimal_int, decimal_u64, push_chars};

verus! {

// ── Escaping ────────────────────────────────────────────────────────────────

/// The entity `&amp;`.
pub open spec fn amp() -> Seq<char> {
    seq!['&', 'a', 'm', 'p', ';']
}

/// The entity `&lt;`.
pub open spec fn lt() -> Seq<char> {
    seq!['&', 'l', 't', ';']
}

/// The entity `&gt;`.
pub open spec fn gt() -> Seq<char> {
    seq!['&', 'g', 't', ';']
}

/// The entity `&quot;`.
pub open spec fn quot() -> Seq<char> {
    seq!['&', 'q', 'u', 'o', 't', ';']
}

/// The markup that stands for `c`: `&`, `<`, `>` and `"` become entities,
/// every other character stands for itself.
pub open spec fn escape_char(c: char) -> Seq<char> {
    if c == '&' {
        amp()
    } else if c == '<' {
        lt()
    } else if c == '>' {
        gt()
    } else if c == '"' {
        quot()
    } else {
        seq![c]
    }
}

/// `s` with each character replaced by its markup.
pub open spec fn escape_html(s: Seq<char>) -> Seq<char>
    decreases s.len(),
{
    if s.len() == 0 {
        Seq::<char>::empty()
    } else {
        escape_html(s.drop_last()) + escape_char(s.last())
    }
}

/// Escapes `&`, `<`, `>` and `"` in `s` so that it can stand in element text
/// and in a double-quoted attribute value.
pub fn html_escape(s: &str) -> (r: String)
    ensures
        r@ == escape_html(s@),
{
    let cs = chars_of(s);
    let mut out = String::new();
    for i in 0..cs.len()
        invariant
            out@ == escape_html(cs@.take(i as int)),
    {
        let c = cs[i];
        assert(cs@.take(i + 1).drop_last() =~= cs@.take(i as int));
        assert(cs@.take(i + 1).last() == c);
        if c == '&' {
            proof {
                reveal_strlit("&amp;");
                assert("&amp;"@ =~= amp());
            }
            out.append("&amp;");
        } else if c == '<' {
            proof {
                reveal_strlit("&lt;");
                assert("&lt;"@ =~= lt());
            }
            out.append("&lt;");
        } else if c == '>' {
            proof {
                reveal_strlit("&gt;");
                assert("&gt;"@ =~= gt());
            }
            out.append("&gt;");
        } else if c == '"' {
            proof {
                reveal_strlit("&quot;");
                assert("&quot;"@ =~= quot());
            }
            out.append("&quot;");
        } else {
            out.push(c);
        }
    }
    assert(cs@.take(cs.len() as int) =~= cs@);
    out
}

fn escape_into(out: &mut String, s: &str)
    ensures
        final(out)@ == old(out)@ + escape_html(s@),
{
    let e = html_escape(s);
    out.append(e.as_str());
}


/// Escaped text holds no `<`, `>` or `"`: whatever a user typed, once escaped
/// it can neither open or close a tag nor end an attribute value.
pub proof fn lemma_escaped_has_no_markup(s: Seq<char>)
    ensures
        forall|i: int| 0 <= i < escape_html(s).len() ==> {
            let c = #[trigger] escape_html(s)[i];
            c != '<' && c != '>' && c != '"'
        },
    decreases s.len(),
{
    if s.len() > 0 {
        lemma_escaped_has_no_markup(s.drop_last());
        let a = escape_html(s.drop_last());
        let b = escape_char(s.last());
        assert forall|i: int| 0 <= i < b.len() implies {
            let c = #[trigger] b[i];
            c != '<' && c != '>' && c != '"'
        } by {}
        assert forall|i: int| 0 <= i < escape_html(s).len() implies {
            let c = #[trigger] escape_html(s)[i];
            c != '<' && c != '>' && c != '"'
        } by {
            if i < a.len() {
                assert(escape_html(s)[i] == a[i]);
            } else {
                assert(escape_html(s)[i] == b[i - a.len()]);
            }
        }
    }
}


// ── Undoing the escape ──────────────────────────────────────────────────────

/// Undoes [`escape_html`] the way `str::replace` would: `&quot;`, `&gt;`,
/// `&lt;` and then `&amp;` are turned back into their characters.
pub open spec fn unescape_html(t: Seq<char>) -> Seq<char> {
    replace_all(
        replace_all(replace_all(replace_all(t, quot(), seq!['"']), gt(), seq!['>']), lt(), seq!['<']),
        amp(),
        seq!['&'],
    )
}

/// The markup for `c` once the first `k` entities (`&quot;`, `&gt;`, `&lt;`,
/// `&amp;`, in that order) have been turned back into characters.
spec fn stage_char(c: char, k: nat) -> Seq<char> {
    if k >= 1 && c == '"' {
        seq!['"']
    } else if k >= 2 && c == '>' {
        seq!['>']
    } else if k >= 3 && c == '<' {
        seq!['<']
    } else if k >= 4 && c == '&' {
        seq!['&']
    } else {
        escape_char(c)
    }
}

/// The markup for `s` at stage `k`, piece by piece from the front.
spec fn stage(s: Seq<char>, k: nat) -> Seq<char>
    decreases s.len(),
{
    if s.len() == 0 {
        Seq::<char>::empty()
    } else {
        stage_char(s[0], k) + stage(s.drop_first(), k)
    }
}

/// The entity turned back at step `k`.
spec fn stage_pat(k: nat) -> Seq<char> {
    if k == 0 {
        quot()
    } else if k == 1 {
        gt()
    } else if k == 2 {
        lt()
    } else {
        amp()
    }
}

/// The character that step `k` puts back.
spec fn stage_rep(k: nat) -> Seq<char> {
    if k == 0 {
        seq!['"']
    } else if k == 1 {
        seq!['>']
    } else if k == 2 {
        seq!['<']
    } else {
        seq!['&']
    }
}

/// Markup whose only `&` is its first character, and which differs from
/// `pat` right after that `&`, is left alone by replacing `pat`.
proof fn lemma_replace_passes(x: Seq<char>, y: Seq<char>, pat: Seq<char>, rep: Seq<char>)
    requires
        pat.len() >= 2,
        pat[0] == '&',
        forall|i: int| 1 <= i < x.len() ==> x[i] != '&',
        x.len() > 0 && x[0] == '&' ==> x.len() >= 2 && x[1] != pat[1],
    ensures
        replace_all(x + y, pat, rep) == x + replace_all(y, pat, rep),
    decreases x.len(),
{
    if x.len() == 0 {
        assert(x + y =~= y);
    } else {
        let s = x + y;
        if s.len() < pat.len() {
            assert(x + y =~= s);
        } else {
            assert(s.take(pat.len() as int) != pat) by {
                if x[0] != '&' {
                    assert(s.take(pat.len() as int)[0] != pat[0]);
                } else {
                    assert(s.take(pat.len() as int)[1] != pat[1]);
                }
            }
            let x1 = x.drop_first();
            lemma_replace_passes(x1, y, pat, rep);
            assert(s.drop_first() =~= x1 + y);
            assert(seq![x[0]] + (x1 + replace_all(y, pat, rep)) =~= x + replace_all(y, pat, rep));
        }
    }
}

/// Replacing `pat` at the front of `pat + y` gives `rep` and the rest.
proof fn lemma_replace_match(y: Seq<char>, pat: Seq<char>, rep: Seq<char>)
    requires
        pat.len() > 0,
    ensures
        replace_all(pat + y, pat, rep) == rep + replace_all(y, pat, rep),
{
    assert((pat + y).take(pat.len() as int) =~= pat);
    assert((pat + y).skip(pat.len() as int) =~= y);
}

/// At step `k`, each piece is either the entity turned back, which becomes its
/// character, or markup that the step leaves alone.
proof fn lemma_stage_char(c: char, k: nat)
    requires
        k < 4,
    ensures
        stage_char(c, k) == stage_pat(k) && stage_char(c, k + 1) == stage_rep(k) || ({
            let x = stage_char(c, k);
            let pat = stage_pat(k);
            &&& forall|i: int| 1 <= i < x.len() ==> x[i] != '&'
            &&& x.len() > 0 && x[0] == '&' ==> x.len() >= 2 && x[1] != pat[1]
            &&& stage_char(c, k + 1) == x
        }),
{
}

/// Step `k` turns stage `k` into stage `k + 1`.
proof fn lemma_stage_step(s: Seq<char>, k: nat)
    requires
        k < 4,
    ensures
        replace_all(stage(s, k), stage_pat(k), stage_rep(k)) == stage(s, k + 1),
    decreases s.len(),
{
    if s.len() > 0 {
        let x = stage_char(s[0], k);
        let y = stage(s.drop_first(), k);
        lemma_stage_step(s.drop_first(), k);
        lemma_stage_char(s[0], k);
        if x == stage_pat(k) && stage_char(s[0], k + 1) == stage_rep(k) {
            lemma_replace_match(y, stage_pat(k), stage_rep(k));
        } else {
            lemma_replace_passes(x, y, stage_pat(k), stage_rep(k));
        }
    }
}

/// Stage 0 is the escaped text.
proof fn lemma_stage_zero(s: Seq<char>)
    ensures
        stage(s, 0) == escape_html(s),
    decreases s.len(),
{
    if s.len() > 0 {
        let p = s.drop_last();
        lemma_stage_zero(p);
        lemma_stage_append(p, s.last());
        assert(p.push(s.last()) =~= s);
    }
}

/// Adding a character at the end adds its piece at the end.
proof fn lemma_stage_append(s: Seq<char>, c: char)
    ensures
        stage(s.push(c), 0) == stage(s, 0) + stage_char(c, 0),
    decreases s.len(),
{
    if s.len() == 0 {
        assert(s.push(c).drop_first() =~= Seq::<char>::empty());
        assert(stage(Seq::<char>::empty(), 0) == Seq::<char>::empty());
        assert(s.push(c)[0] == c);
        assert(stage(s.push(c), 0) =~= stage_char(c, 0) + Seq::<char>::empty());
        assert(stage(s, 0) == Seq::<char>::empty());
    } else {
        lemma_stage_append(s.drop_first(), c);
        assert(s.push(c).drop_first() =~= s.drop_first().push(c));
        assert(stage(s.push(c), 0) =~= stage(s, 0) + stage_char(c, 0));
    }
}

/// Stage 4 is the text itself.
proof fn lemma_stage_four(s: Seq<char>)
    ensures
        stage(s, 4) == s,
    decreases s.len(),
{
    if s.len() > 0 {
        lemma_stage_four(s.drop_first());
        assert(seq![s[0]] + s.drop_first() =~= s);
    }
}

/// Escaping loses nothing: turning `&quot;`, `&gt;`, `&lt;` and then `&amp;`
/// back into their characters gives the original text. In particular no
/// character is escaped twice.
pub proof fn lemma_unescape_escape(s: Seq<char>)
    ensures
        unescape_html(escape_html(s)) == s,
{
    lemma_stage_zero(s);
    lemma_stage_step(s, 0);
    lemma_stage_step(s, 1);
    lemma_stage_step(s, 2);
    lemma_stage_step(s, 3);
    lemma_stage_four(s);
}

// ── Banners ─────────────────────────────────────────────────────────────────

/// The list items for the messages `es`, each escaped.
pub open spec fn error_items(es: Seq<Seq<char>>) -> Seq<char>
    decreases es.len(),
{
    if es.len() == 0 {
        Seq::<char>::empty()
    } else {
        error_items(es.drop_last()) + ITEM_OPEN@ + escape_html(es.last()) + ITEM_CLOSE@
    }
}

/// The error banner listing `es`, or nothing when there is no message.
pub open spec fn errors_html(es: Seq<Seq<char>>) -> Seq<char> {
    if es.len() == 0 {
        Seq::<char>::empty()
    } else {
        ERRORS_OPEN@ + error_items(es) + ERRORS_CLOSE@
    }
}

/// The error banner that lists `errors`, each escaped; empty when there is none.
pub fn render_errors(errors: &[String]) -> (r: String)
    ensures
        r@ == errors_html(texts(errors@)),
{
    if errors.len() == 0 {
        return String::new();
    }
    let ghost es = texts(errors@);
    let mut items = String::new();
    for i in 0..errors.len()
        invariant
            es == texts(errors@),
            items@ == error_items(es.take(i as int)),
    {
        assert(es.take(i + 1).drop_last() =~= es.take(i as int));
        assert(es.take(i + 1).last() == errors@[i as int]@);
        items.append(ITEM_OPEN);
        escape_into(&mut items, errors[i].as_str());
        items.append(ITEM_CLOSE);
    }
    assert(es.take(errors.len() as int) =~= es);
    let mut r = String::from_str(ERRORS_OPEN);
    r.append(items.as_str());
    r.append(ERRORS_CLOSE);
    r
}

/// The banner shown after an entry has been stored.
pub fn render_success() -> (r: String)
    ensures
        r@ == SUCCESS_BANNER@,
{
    String::from_str(SUCCESS_BANNER)
}

// ── The form ────────────────────────────────────────────────────────────────

/// The form markup: the error banner for `es`, the success banner when asked
/// for, then the five inputs pre-filled with the escaped values of `d`.
pub open spec fn form_html(d: FormData, es: Seq<Seq<char>>, show_success: bool) -> Seq<char> {
    errors_html(es) + (if show_success {
        SUCCESS_BANNER@
    } else {
        Seq::<char>::empty()
    }) + FORM_OPEN@ + escape_html(d.first_name@) + FORM_AFTER_FIRST_NAME@ + escape_html(
        d.last_name@,
    ) + FORM_AFTER_LAST_NAME@ + escape_html(d.phone@) + FORM_AFTER_PHONE@ + escape_html(
        d.address@,
    ) + FORM_AFTER_ADDRESS@ + (if d.age_raw@.len() == 0 {
        Seq::<char>::empty()
    } else {
        escape_html(d.age_raw@)
    }) + FORM_CLOSE@
}

/// Renders the entry form with `errors` above it, the success banner when
/// `show_success` holds, and the inputs pre-filled (escaped) from `data`.
pub fn render_form(data: &FormData, errors: &[String], show_success: bool) -> (r: String)
    ensures
        r@ == form_html(*data, texts(errors@), show_success),
{
    let mut r = render_errors(errors);
    if show_success {
        let s = render_success();
        r.append(s.as_str());
    }
    r.append(FORM_OPEN);
    escape_into(&mut r, data.first_name.as_str());
    r.append(FORM_AFTER_FIRST_NAME);
    escape_into(&mut r, data.last_name.as_str());
    r.append(FORM_AFTER_LAST_NAME);
    escape_into(&mut r, data.phone.as_str());
    r.append(FORM_AFTER_PHONE);
    escape_into(&mut r, data.address.as_str());
    r.append(FORM_AFTER_ADDRESS);
    if data.age_raw.as_str().is_empty() {
    } else {
        escape_into(&mut r, data.age_raw.as_str());
    }
    r.append(FORM_CLOSE);
    assert(r@ =~= form_html(*data, texts(errors@), show_success));
    r
}


// ── The records table ───────────────────────────────────────────────────────

/// One stored entry, as read back from the database.
#[derive(Debug)]
pub struct Record {
    pub id: i64,
    pub first_name: String,
    pub last_name: String,
    pub phone: String,
    pub address: String,
    pub age: i64,
    pub created_at: String,
}

/// The first 16 bytes of the UTF-8 text `created` can be cut off as text:
/// there are at least 16 bytes and byte 16 starts a character (or ends the text).
pub open spec fn timestamp_cuttable(created: Seq<char>) -> bool {
    is_char_boundary(encode_utf8(created), 16)
}

/// The text made of the first 16 bytes of `created` (`&created[..16]`), which
/// for `YYYY-MM-DD HH:MM:SS` is the time to the minute.
pub open spec fn timestamp_prefix(created: Seq<char>) -> Seq<char> {
    decode_utf8(encode_utf8(created).subrange(0, 16))
}

/// The table row for `r`: id, full name, phone, address, age and the time to the minute.
pub open spec fn row_html(r: Record) -> Seq<char> {
    ROW_OPEN@ + decimal_int(r.id as int) + ROW_AFTER_ID@ + escape_html(r.first_name@)
        + ROW_BETWEEN_NAMES@ + escape_html(r.last_name@) + ROW_AFTER_NAME@ + escape_html(
        r.phone@,
    ) + ROW_AFTER_PHONE@ + escape_html(r.address@) + ROW_AFTER_ADDRESS@ + decimal_int(
        r.age as int,
    ) + ROW_AFTER_AGE@ + timestamp_prefix(r.created_at@) + ROW_CLOSE@
}

/// The rows for `rs`, in order.
pub open spec fn rows_html(rs: Seq<Record>) -> Seq<char>
    decreases rs.len(),
{
    if rs.len() == 0 {
        Seq::<char>::empty()
    } else {
        rows_html(rs.drop_last()) + row_html(rs.last())
    }
}

/// The records table, or the empty-state notice when there is no record.
pub open spec fn table_html(rs: Seq<Record>) -> Seq<char> {
    if rs.len() == 0 {
        EMPTY_STATE@
    } else {
        TABLE_OPEN@ + rows_html(rs) + TABLE_CLOSE@
    }
}


/// The rows of two lists of records joined are the rows of the first list
/// followed by the rows of the second.
pub proof fn lemma_rows_concat(a: Seq<Record>, b: Seq<Record>)
    ensures
        rows_html(a + b) == rows_html(a) + rows_html(b),
    decreases b.len(),
{
    if b.len() == 0 {
        assert(a + b =~= a);
        assert(rows_html(a) + rows_html(b) =~= rows_html(a));
    } else {
        lemma_rows_concat(a, b.drop_last());
        assert((a + b).drop_last() =~= a + b.drop_last());
        assert((a + b).last() == b.last());
        assert(rows_html(a + b) =~= rows_html(a) + rows_html(b));
    }
}

/// A table is split record by record: every non-empty table is the same fixed
/// head and tail around its rows; the table of one record holds exactly that
/// record's row; and the rows of two lists joined are the rows of each, in order.
pub proof fn lemma_table_splits(a: Seq<Record>, b: Seq<Record>)
    requires
        a.len() > 0,
        b.len() > 0,
    ensures
        table_html(a) == TABLE_OPEN@ + rows_html(a) + TABLE_CLOSE@,
        table_html(b) == TABLE_OPEN@ + rows_html(b) + TABLE_CLOSE@,
        table_html(a + b) == TABLE_OPEN@ + (rows_html(a) + rows_html(b)) + TABLE_CLOSE@,
        rows_html(seq![a[0]]) == row_html(a[0]),
        table_html(seq![a[0]]) == TABLE_OPEN@ + row_html(a[0]) + TABLE_CLOSE@,
{
    lemma_rows_concat(a, b);
    let one = seq![a[0]];
    let row = row_html(a[0]);
    assert(one.drop_last() =~= Seq::<Record>::empty());
    assert(one.last() == a[0]);
    assert(rows_html(one.drop_last()) == Seq::<char>::empty());
    assert(rows_html(one) == Seq::<char>::empty() + row);
    assert(Seq::<char>::empty() + row =~= row);
}

/// `&created[..16]`.
fn timestamp_minute(created: &str) -> (r: &str)
    requires
        timestamp_cuttable(created@),
    ensures
        r@ == timestamp_prefix(created@),
{
    let (minute, _) = created.split_at(16);
    proof {
        vstd::utf8::encode_utf8_decode_utf8(minute@);
    }
    minute
}

fn row_into(out: &mut String, r: &Record)
    requires
        timestamp_cuttable(r.created_at@),
    ensures
        final(out)@ == old(out)@ + row_html(*r),
{
    out.append(ROW_OPEN);
    push_chars(out, &decimal_i64(r.id));
    out.append(ROW_AFTER_ID);
    escape_into(out, r.first_name.as_str());
    out.append(ROW_BETWEEN_NAMES);
    escape_into(out, r.last_name.as_str());
    out.append(ROW_AFTER_NAME);
    escape_into(out, r.phone.as_str());
    out.append(ROW_AFTER_PHONE);
    escape_into(out, r.address.as_str());
    out.append(ROW_AFTER_ADDRESS);
    push_chars(out, &decimal_i64(r.age));
    out.append(ROW_AFTER_AGE);
    let minute = timestamp_minute(r.created_at.as_str());
    out.append(minute);
    out.append(ROW_CLOSE);
    assert(final(out)@ =~= old(out)@ + row_html(*r));
}

/// Renders the records table, one row per record in the given order, with all
/// text escaped and each timestamp cut to its first 16 bytes; the empty-state
/// notice when there is no record.
pub fn render_table(records: &[Record]) -> (r: String)
    requires
        forall|i: int| 0 <= i < records@.len() ==> #[trigger] timestamp_cuttable(
            records@[i].created_at@,
        ),
    ensures
        r@ == table_html(records@),
{
    if records.len() == 0 {
        return String::from_str(EMPTY_STATE);
    }
    let mut rows = String::new();
    for i in 0..records.len()
        invariant
            forall|j: int| 0 <= j < records@.len() ==> #[trigger] timestamp_cuttable(
                records@[j].created_at@,
            ),
            rows@ == rows_html(records@.take(i as int)),
    {
        assert(records@.take(i + 1).drop_last() =~= records@.take(i as int));
        assert(records@.take(i + 1).last() == records@[i as int]);
        row_into(&mut rows, &records[i]);
    }
    assert(records@.take(records.len() as int) =~= records@);
    let mut r = String::from_str(TABLE_OPEN);
    r.append(rows.as_str());
    r.append(TABLE_CLOSE);
    r
}

// ── The page ────────────────────────────────────────────────────────────────

/// The entry count badge: the count when there is at least one entry, else nothing.
pub open spec fn badge_html(count: nat) -> Seq<char> {
    if count > 0 {
        BADGE_OPEN@ + decimal(count) + BADGE_CLOSE@
    } else {
        Seq::<char>::empty()
    }
}

/// The whole page around the given form and table markup.
pub open spec fn page_html(form: Seq<char>, table: Seq<char>, count: nat, show_toast: bool) -> Seq<
    char,
> {
    PAGE_OPEN@ + CSS@ + PAGE_AFTER_STYLE@ + (if show_toast {
        TOAST@
    } else {
        Seq::<char>::empty()
    }) + PAGE_AFTER_TOAST@ + form + PAGE_AFTER_FORM@ + badge_html(count) + PAGE_AFTER_BADGE@
        + table + PAGE_CLOSE@
}

/// Renders the whole page: style sheet, the optional toast, the form markup,
/// the entry count badge (when `count > 0`) and the table markup.
pub fn full_page(form_html: &str, table_html: &str, count: usize, show_toast: bool) -> (r: String)
    ensures
        r@ == page_html(form_html@, table_html@, count as nat, show_toast),
{
    let mut r = String::from_str(PAGE_OPEN);
    r.append(CSS);
    r.append(PAGE_AFTER_STYLE);
    if show_toast {
        r.append(TOAST);
    }
    r.append(PAGE_AFTER_TOAST);
    r.append(form_html);
    r.append(PAGE_AFTER_FORM);
    if count > 0 {
        r.append(BADGE_OPEN);
        push_chars(&mut r, &decimal_u64(count as u64));
        r.append(BADGE_CLOSE);
    }
    r.append(PAGE_AFTER_BADGE);
    r.append(table_html);
    r.append(PAGE_CLOSE);
    assert(r@ =~= page_html(form_html@, table_html@, count as nat, show_toast));
    r
}

} // verus!
