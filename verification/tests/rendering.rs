use webapp::form::FormData;
use webapp::html::{full_page, html_escape, render_errors, render_form, render_success, render_table, Record};
use webapp::markup::CSS;

#[test]
fn escape_replaces_markup_characters() {
    assert_eq!(html_escape(r#"<a href="x">Tom & Jerry</a>"#), "&lt;a href=&quot;x&quot;&gt;Tom &amp; Jerry&lt;/a&gt;");
    assert_eq!(html_escape("plain 'text' ā"), "plain 'text' ā");
    assert_eq!(html_escape(""), "");
    assert_eq!(html_escape("&amp;"), "&amp;amp;");
}

#[test]
fn escaped_text_has_no_tag_characters() {
    let e = html_escape("<script>alert(\"x\")</script>");
    assert!(!e.contains('<') && !e.contains('>') && !e.contains('"'));
}

#[test]
fn errors_banner() {
    assert_eq!(render_errors(&[]), "");
    let errs = vec!["First Name is required.".to_string(), "a<b".to_string()];
    let expected = format!(
        r#"<div class="banner banner-error">
          <span class="banner-icon">ERR</span>
          <div><strong>Validation failed &mdash;</strong><ul>{}</ul></div>
        </div>"#,
        "<li>First Name is required.</li><li>a&lt;b</li>"
    );
    assert_eq!(render_errors(&errs), expected);
}

#[test]
fn success_banner() {
    assert_eq!(
        render_success(),
        r#"<div class="banner banner-success">
      <span class="banner-icon">OK</span>
      <div><strong>Entry committed.</strong> The record has been written to the database.</div>
    </div>"#
    );
}

fn expected_form(error_html: &str, success_html: &str, f: &str, l: &str, p: &str, a: &str, age: &str) -> String {
    format!(
        r#"{error_html}{success_html}
        <form method="POST" action="/" autocomplete="off">
          <div class="field-row">
            <div class="field">
              <label for="first_name">Given Name<span class="required-mark">*</span></label>
              <input type="text" id="first_name" name="first_name" value="{fn}" placeholder="e.g. Jānis">
              <span class="field-hint">2–50 letters, hyphens or apostrophes only</span>
            </div>
            <div class="field">
              <label for="last_name">Family Name<span class="required-mark">*</span></label>
              <input type="text" id="last_name" name="last_name" value="{ln}" placeholder="e.g. Bērziņš">
              <span class="field-hint">2–50 letters, hyphens or apostrophes only</span>
            </div>
          </div>
          <div class="field">
            <label for="phone">Contact Number<span class="required-mark">*</span></label>
            <input type="text" id="phone" name="phone" value="{ph}" placeholder="12345678">
            <span class="field-hint">Exactly 8 numeric digits &mdash; no spaces or symbols</span>
          </div>
          <div class="field">
            <label for="address">Residential Address<span class="required-mark">*</span></label>
            <input type="text" id="address" name="address" value="{addr}" placeholder="e.g. Brīvības iela 19, Rīga">
            <span class="field-hint">5–200 characters, must include a street name and number</span>
          </div>
          <div class="field">
            <label for="age">Age<span class="required-mark">*</span></label>
            <input type="text" id="age" name="age" value="{age}" placeholder="25">
            <span class="field-hint">Whole number between 1 and 150</span>
          </div>
          <div class="btn-row">
            <button type="submit">Commit Entry &rarr;</button>
          </div>
        </form>"#,
        fn = f,
        ln = l,
        ph = p,
        addr = a,
        age = age,
    )
}

#[test]
fn blank_form() {
    let r = render_form(&FormData::default(), &[], false);
    assert_eq!(r, expected_form("", "", "", "", "", "", ""));
}

#[test]
fn form_is_prefilled_and_escaped() {
    let d = FormData {
        first_name: "A\"B".to_string(),
        last_name: "<x>".to_string(),
        phone: "1&2".to_string(),
        address: "Main 1".to_string(),
        age: 0,
        age_raw: "2\"".to_string(),
    };
    let errs = vec!["Age must be a whole number with no letters or symbols.".to_string()];
    let r = render_form(&d, &errs, true);
    let expected = expected_form(
        &render_errors(&errs),
        &render_success(),
        "A&quot;B",
        "&lt;x&gt;",
        "1&amp;2",
        "Main 1",
        "2&quot;",
    );
    assert_eq!(r, expected);
}

fn record(id: i64, first: &str, age: i64, created: &str) -> Record {
    Record {
        id,
        first_name: first.to_string(),
        last_name: "B&rz".to_string(),
        phone: "12345678".to_string(),
        address: "Street 1".to_string(),
        age,
        created_at: created.to_string(),
    }
}

#[test]
fn empty_table() {
    assert_eq!(
        render_table(&[]),
        r#"<div class="empty-state">No entries yet &mdash; submit the form above</div>"#
    );
}

#[test]
fn table_rows() {
    let rs = vec![record(2, "Anna", 30, "2024-05-01 12:34:56"), record(-1, "<b>", -7, "2024-05-01 08:00:00")];
    let row = |id: &str, f: &str, age: &str, ts: &str| {
        format!(
            r#"<tr>
              <td class="td-id">{id}</td>
              <td class="td-name">{fn} {ln}</td>
              <td class="td-mono">{ph}</td>
              <td>{addr}</td>
              <td class="td-mono">{age}</td>
              <td class="td-mono">{ts}</td>
            </tr>"#,
            id = id,
            fn = f,
            ln = "B&amp;rz",
            ph = "12345678",
            addr = "Street 1",
            age = age,
            ts = ts,
        )
    };
    let rows = format!("{}{}", row("2", "Anna", "30", "2024-05-01 12:34"), row("-1", "&lt;b&gt;", "-7", "2024-05-01 08:00"));
    let expected = format!(
        r#"<div class="table-wrap">
          <table>
            <thead>
              <tr>
                <th>ID</th>
                <th>Full Name</th>
                <th>Contact</th>
                <th>Address</th>
                <th>Age</th>
                <th>Recorded At</th>
              </tr>
            </thead>
            <tbody>{}</tbody>
          </table>
        </div>"#,
        rows
    );
    assert_eq!(render_table(&rs), expected);
}

#[test]
fn table_timestamp_is_first_sixteen_bytes() {
    let r = render_table(&[record(1, "Ann", 5, "ābcdefghijklmnopq")]);
    // 'ā' takes two bytes, so the first 16 bytes hold 15 characters.
    assert!(r.contains(r#"<td class="td-mono">ābcdefghijklmno</td>"#));
}

fn expected_page(form: &str, table: &str, badge: &str, toast: &str) -> String {
    format!(
        r#"<!DOCTYPE html>
<html lang="en">
<head>
  <meta charset="UTF-8">
  <meta name="viewport" content="width=device-width, initial-scale=1.0">
  <title>Personal Records Registry</title>
  <link rel="preconnect" href="https://fonts.googleapis.com">
  <link rel="preconnect" href="https://fonts.gstatic.com" crossorigin>
  <style>{css}</style>
</head>
<body>
  {toast}
  <div class="topbar">
    <span class="topbar-id">PRSN-REG &nbsp;/&nbsp; v1.0</span>
    <span class="topbar-dot"></span>
  </div>
  <header>
    <h1><span>Contact</span>Registry</h1>
    <div class="header-meta">
      <div>Personal Data</div>
      <div>Management System</div>
    </div>
  </header>
  <main>
    <div class="section-head">
      <span class="section-num">01</span>
      <span class="section-title">New Entry</span>
      <div class="section-rule"></div>
    </div>
    <div class="card">
      <div class="form-inner">
        {form}
      </div>
    </div>

    <div class="section-head">
      <span class="section-num">02</span>
      <span class="section-title">All Entries{badge}</span>
      <div class="section-rule"></div>
    </div>
    <div class="card">
      {table}
    </div>
  </main>
  <footer></footer>
</body>
</html>"#,
        css = CSS,
        form = form,
        table = table,
        badge = badge,
        toast = toast,
    )
}

#[test]
fn page_without_entries_or_toast() {
    assert_eq!(full_page("F", "T", 0, false), expected_page("F", "T", "", ""));
}

#[test]
fn page_with_badge_and_toast() {
    assert_eq!(
        full_page("<form/>", "<table/>", 12, true),
        expected_page(
            "<form/>",
            "<table/>",
            "<span class=\"count-badge\">12</span>",
            r#"<div class="toast">Entry committed</div>"#
        )
    );
}

#[test]
fn style_sheet_starts_with_font_import() {
    assert!(CSS.starts_with("\n@import url('https://fonts.googleapis.com/css2?family=Syne"));
    assert!(CSS.contains("@media (max-width: 600px)"));
}

#[test]
fn escaping_can_be_undone() {
    for t in ["&quot;", "a<b>&c\"d", "&amp;lt;", "plain", "", "&&<<>>\"\""] {
        let e = html_escape(t);
        let back = e.replace("&quot;", "\"").replace("&gt;", ">").replace("&lt;", "<").replace("&amp;", "&");
        assert_eq!(back, t);
    }
}
