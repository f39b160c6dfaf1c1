//! The fixed markup of the pages, cut where the variable parts go.

use vstd::prelude::*;

verus! {

/// Opens the error banner, up to its list of messages.
pub const ERRORS_OPEN: &'static str = r#"<div class="banner banner-error">
          <span class="banner-icon">ERR</span>
          <div><strong>Validation failed &mdash;</strong><ul>"#;

/// Closes the error banner after its list of messages.
pub const ERRORS_CLOSE: &'static str = r#"</ul></div>
        </div>"#;

/// Opens one listed message.
pub const ITEM_OPEN: &'static str = r#"<li>"#;

/// Closes one listed message.
pub const ITEM_CLOSE: &'static str = r#"</li>"#;

/// The banner shown once an entry has been stored.
pub const SUCCESS_BANNER: &'static str = r#"<div class="banner banner-success">
      <span class="banner-icon">OK</span>
      <div><strong>Entry committed.</strong> The record has been written to the database.</div>
    </div>"#;

/// The form markup up to the first name value.
pub const FORM_OPEN: &'static str = r#"
        <form method="POST" action="/" autocomplete="off">
          <div class="field-row">
            <div class="field">
              <label for="first_name">Given Name<span class="required-mark">*</span></label>
              <input type="text" id="first_name" name="first_name" value=""#;

/// The form markup between the first and last name values.
pub const FORM_AFTER_FIRST_NAME: &'static str = r#"" placeholder="e.g. Jānis">
              <span class="field-hint">2–50 letters, hyphens or apostrophes only</span>
            </div>
            <div class="field">
              <label for="last_name">Family Name<span class="required-mark">*</span></label>
              <input type="text" id="last_name" name="last_name" value=""#;

/// The form markup between the last name and phone values.
pub const FORM_AFTER_LAST_NAME: &'static str = r#"" placeholder="e.g. Bērziņš">
              <span class="field-hint">2–50 letters, hyphens or apostrophes only</span>
            </div>
          </div>
          <div class="field">
            <label for="phone">Contact Number<span class="required-mark">*</span></label>
            <input type="text" id="phone" name="phone" value=""#;

/// The form markup between the phone and address values.
pub const FORM_AFTER_PHONE: &'static str = r#"" placeholder="12345678">
            <span class="field-hint">Exactly 8 numeric digits &mdash; no spaces or symbols</span>
          </div>
          <div class="field">
            <label for="address">Residential Address<span class="required-mark">*</span></label>
            <input type="text" id="address" name="address" value=""#;

/// The form markup between the address and age values.
pub const FORM_AFTER_ADDRESS: &'static str = r#"" placeholder="e.g. Brīvības iela 19, Rīga">
            <span class="field-hint">5–200 characters, must include a street name and number</span>
          </div>
          <div class="field">
            <label for="age">Age<span class="required-mark">*</span></label>
            <input type="text" id="age" name="age" value=""#;

/// The form markup after the age value.
pub const FORM_CLOSE: &'static str = r#"" placeholder="25">
            <span class="field-hint">Whole number between 1 and 150</span>
          </div>
          <div class="btn-row">
            <button type="submit">Commit Entry &rarr;</button>
          </div>
        </form>"#;

/// Shown in place of the table when there is no entry.
pub const EMPTY_STATE: &'static str = r#"<div class="empty-state">No entries yet &mdash; submit the form above</div>"#;

/// A table row up to the id.
pub const ROW_OPEN: &'static str = r#"<tr>
              <td class="td-id">"#;

/// A table row between the id and the first name.
pub const ROW_AFTER_ID: &'static str = r#"</td>
              <td class="td-name">"#;

/// A table row between the first and last name.
pub const ROW_BETWEEN_NAMES: &'static str = r#" "#;

/// A table row between the name and the phone.
pub const ROW_AFTER_NAME: &'static str = r#"</td>
              <td class="td-mono">"#;

/// A table row between the phone and the address.
pub const ROW_AFTER_PHONE: &'static str = r#"</td>
              <td>"#;

/// A table row between the address and the age.
pub const ROW_AFTER_ADDRESS: &'static str = r#"</td>
              <td class="td-mono">"#;

/// A table row between the age and the timestamp.
pub const ROW_AFTER_AGE: &'static str = r#"</td>
              <td class="td-mono">"#;

/// A table row after the timestamp.
pub const ROW_CLOSE: &'static str = r#"</td>
            </tr>"#;

/// The table markup up to its rows.
pub const TABLE_OPEN: &'static str = r#"<div class="table-wrap">
          <table>
            <thead>
              <tr>
                <th>ID</th>
                <th>Full Name</th>
                <th>Contact</th>
                <th>Address</th>
                <th>Age</th>
                <th>Recorded At</th>
              </tr>
            </thead>
            <tbody>"#;

/// The table markup after its rows.
pub const TABLE_CLOSE: &'static str = r#"</tbody>
          </table>
        </div>"#;

/// The page up to its style sheet.
pub const PAGE_OPEN: &'static str = r#"<!DOCTYPE html>
<html lang="en">
<head>
  <meta charset="UTF-8">
  <meta name="viewport" content="width=device-width, initial-scale=1.0">
  <title>Personal Records Registry</title>
  <link rel="preconnect" href="https://fonts.googleapis.com">
  <link rel="preconnect" href="https://fonts.gstatic.com" crossorigin>
  <style>"#;

/// The page between the style sheet and the toast.
pub const PAGE_AFTER_STYLE: &'static str = r#"</style>
</head>
<body>
  "#;

/// The page between the toast and the form.
pub const PAGE_AFTER_TOAST: &'static str = r#"
  <div class="topbar">
    <span class="topbar-id">PRSN-REG &nbsp;/&nbsp; v1.0</span>
    <span class="topbar-dot"></span>
  </div>
  <header>
    <h1><span>Contact</span>Registry</h1>
    <div class="header-meta">
      <div>Personal Data</div>
      <div>Management System</div>
    </div>
  </header>
  <main>
    <div class="section-head">
      <span class="section-num">01</span>
      <span class="section-title">New Entry</span>
      <div class="section-rule"></div>
    </div>
    <div class="card">
      <div class="form-inner">
        "#;

/// The page between the form and the entry count badge.
pub const PAGE_AFTER_FORM: &'static str = r#"
      </div>
    </div>

    <div class="section-head">
      <span class="section-num">02</span>
      <span class="section-title">All Entries"#;

/// The page between the badge and the table.
pub const PAGE_AFTER_BADGE: &'static str = r#"</span>
      <div class="section-rule"></div>
    </div>
    <div class="card">
      "#;

/// The page after the table.
pub const PAGE_CLOSE: &'static str = r#"
    </div>
  </main>
  <footer></footer>
</body>
</html>"#;

/// The notice shown after an entry was committed.
pub const TOAST: &'static str = r#"<div class="toast">Entry committed</div>"#;

/// Opens the entry count badge.
pub const BADGE_OPEN: &'static str = r#"<span class="count-badge">"#;

/// Closes the entry count badge.
pub const BADGE_CLOSE: &'static str = r#"</span>"#;

/// The style sheet embedded in every page.
pub const CSS: &'static str = r#"
@import url('https://fonts.googleapis.com/css2?family=Syne:wght@400;500;600;700;800&family=Literata:ital,wght@0,300;0,400;1,300;1,400&family=IBM+Plex+Mono:wght@400;500&display=swap');

*, *::before, *::after { box-sizing: border-box; margin: 0; padding: 0; }

:root {
  --bg:          #0d0d0f;
  --bg-raised:   #131316;
  --bg-card:     #18181c;
  --bg-input:    #1e1e23;
  --line:        #2a2a30;
  --line-bright: #3a3a42;
  --fg:          #e8e6f0;
  --fg-muted:    #7a7888;
  --fg-dim:      #3e3d48;
  --lime:        #b8f55a;
  --lime-dim:    rgba(184,245,90,0.12);
  --lime-glow:   rgba(184,245,90,0.06);
  --red:         #ff5c5c;
  --red-dim:     rgba(255,92,92,0.1);
  --green:       #52d98a;
  --green-dim:   rgba(82,217,138,0.1);
  --radius:      3px;
  --font-head:   'Syne', system-ui, sans-serif;
  --font-body:   'Literata', Georgia, serif;
  --font-mono:   'IBM Plex Mono', 'Courier New', monospace;
}

html { font-size: 16px; }

body {
  background-color: var(--bg);
  background-image:
    radial-gradient(ellipse 70% 50% at 10% 0%, rgba(184,245,90,0.03) 0%, transparent 60%),
    radial-gradient(ellipse 50% 60% at 90% 100%, rgba(184,245,90,0.025) 0%, transparent 60%);
  color: var(--fg);
  font-family: var(--font-body);
  font-weight: 300;
  line-height: 1.65;
  min-height: 100vh;
  padding: 0 2rem 6rem;
}

/* ── Top bar ── */
.topbar {
  max-width: 860px;
  margin: 0 auto;
  padding: 1.5rem 0;
  border-bottom: 1px solid var(--line);
  display: flex;
  align-items: center;
  justify-content: space-between;
}

.topbar-id {
  font-family: var(--font-mono);
  font-size: 0.6rem;
  letter-spacing: 0.2em;
  text-transform: uppercase;
  color: #9e9cb0;
}

.topbar-dot {
  width: 6px;
  height: 6px;
  border-radius: 50%;
  background: var(--lime);
  box-shadow: 0 0 8px var(--lime);
}

/* ── Header ── */
header {
  max-width: 860px;
  margin: 0 auto;
  padding: 4rem 0 3.5rem;
  display: grid;
  grid-template-columns: 1fr auto;
  align-items: end;
  gap: 2rem;
  border-bottom: 1px solid var(--line);
}

header h1 {
  font-family: var(--font-head);
  font-size: clamp(2.8rem, 6vw, 5rem);
  font-weight: 800;
  line-height: 0.92;
  letter-spacing: -0.04em;
  color: var(--fg);
  text-transform: uppercase;
}

header h1 span {
  display: block;
  color: var(--lime);
  font-style: italic;
  font-weight: 400;
  font-family: var(--font-body);
  font-size: 0.45em;
  letter-spacing: 0.02em;
  text-transform: none;
  margin-bottom: 0.3rem;
}

.header-meta {
  text-align: right;
  font-family: var(--font-mono);
  font-size: 0.6rem;
  letter-spacing: 0.12em;
  color: #9e9cb0;
  text-transform: uppercase;
  line-height: 2;
}

/* ── Main layout ── */
main {
  max-width: 860px;
  margin: 0 auto;
}

/* ── Section titles ── */
.section-head {
  display: flex;
  align-items: center;
  gap: 1rem;
  margin: 3rem 0 1.25rem;
}

.section-num {
  font-family: var(--font-mono);
  font-size: 0.6rem;
  color: var(--lime);
  letter-spacing: 0.1em;
  flex-shrink: 0;
}

.section-title {
  font-family: var(--font-head);
  font-size: 0.7rem;
  font-weight: 600;
  letter-spacing: 0.18em;
  text-transform: uppercase;
  color: var(--fg-muted);
  white-space: nowrap;
}

.section-rule {
  flex: 1;
  height: 1px;
  background: var(--line);
}

/* ── Card ── */
.card {
  background: var(--bg-card);
  border: 1px solid var(--line);
  border-radius: var(--radius);
  overflow: hidden;
}

/* ── Form ── */
.form-inner { padding: 2.25rem 2.5rem 2.5rem; }

.field-row {
  display: grid;
  grid-template-columns: 1fr 1fr;
  gap: 1.25rem;
}

.field {
  display: flex;
  flex-direction: column;
  gap: 0.45rem;
  margin-bottom: 1.25rem;
}

.field:last-child { margin-bottom: 0; }

label {
  font-family: var(--font-mono);
  font-size: 0.6rem;
  font-weight: 500;
  letter-spacing: 0.18em;
  text-transform: uppercase;
  color: #9e9cb0;
  display: flex;
  align-items: center;
  gap: 0.3rem;
}

.required-mark { color: var(--lime); opacity: 0.8; }

input[type="text"] {
  width: 100%;
  padding: 0.75rem 1rem;
  background: #242429;
  border: 1px solid #38383f;
  border-radius: var(--radius);
  font-family: var(--font-body);
  font-size: 0.95rem;
  font-weight: 300;
  color: var(--fg);
  outline: none;
  transition: border-color 0.18s, box-shadow 0.18s;
}

input[type="text"]:focus {
  border-color: var(--lime);
  box-shadow: 0 0 0 3px var(--lime-dim), inset 0 0 0 1px transparent;
}

input[type="text"]::placeholder {
  color: #8a8898;
  font-style: italic;
}

.field-hint {
  font-family: var(--font-mono);
  font-size: 0.6rem;
  color: #8a8898;
  letter-spacing: 0.05em;
}

/* ── Error/Success banners ── */
.banner {
  display: flex;
  align-items: flex-start;
  gap: 1rem;
  padding: 1rem 1.25rem;
  border-radius: var(--radius);
  margin-bottom: 1.75rem;
  font-size: 0.85rem;
  border-left: 2px solid;
}

.banner-error {
  background: var(--red-dim);
  border-color: var(--red);
  color: var(--red);
}

.banner-success {
  background: var(--green-dim);
  border-color: var(--green);
  color: var(--green);
}

.banner-icon {
  font-family: var(--font-mono);
  font-size: 0.7rem;
  font-weight: 500;
  flex-shrink: 0;
  margin-top: 0.15rem;
  letter-spacing: 0;
}

.banner ul { padding-left: 1rem; margin-top: 0.3rem; }
.banner li { margin-bottom: 0.18rem; opacity: 0.85; font-family: var(--font-mono); font-size: 0.78rem; }
.banner strong { font-weight: 600; font-family: var(--font-head); letter-spacing: 0.04em; }

/* ── Submit button ── */
.btn-row { margin-top: 2rem; }

button[type="submit"] {
  padding: 0.8rem 2rem;
  background: var(--lime);
  color: #0d0d0f;
  border: none;
  border-radius: var(--radius);
  font-family: var(--font-head);
  font-size: 0.75rem;
  font-weight: 700;
  letter-spacing: 0.14em;
  text-transform: uppercase;
  cursor: pointer;
  transition: opacity 0.15s, transform 0.1s, box-shadow 0.2s;
  box-shadow: 0 0 24px var(--lime-dim);
}

button[type="submit"]:hover {
  opacity: 0.88;
  box-shadow: 0 0 40px rgba(184,245,90,0.2);
  transform: translateY(-1px);
}

button[type="submit"]:active {
  transform: translateY(0);
  opacity: 1;
}

/* ── Records table ── */
.table-wrap { overflow-x: auto; }

table {
  width: 100%;
  border-collapse: collapse;
  font-size: 0.875rem;
}

thead {
  border-bottom: 1px solid var(--line-bright);
}

thead th {
  padding: 0.9rem 1.25rem;
  text-align: left;
  font-family: var(--font-mono);
  font-size: 0.58rem;
  font-weight: 500;
  letter-spacing: 0.2em;
  text-transform: uppercase;
  color: #9e9cb0;
  white-space: nowrap;
  background: var(--bg-raised);
}

thead th:first-child { padding-left: 2rem; }
thead th:last-child  { padding-right: 2rem; }

tbody tr {
  border-bottom: 1px solid var(--line);
  transition: background 0.12s;
}

tbody tr:hover { background: rgba(255,255,255,0.02); }
tbody tr:last-child { border-bottom: none; }

tbody td {
  padding: 0.9rem 1.25rem;
  color: var(--fg);
  vertical-align: middle;
  font-weight: 300;
}

tbody td:first-child { padding-left: 2rem; }
tbody td:last-child  { padding-right: 2rem; }

.td-mono {
  font-family: var(--font-mono);
  font-size: 0.78rem;
  color: #c8c6d8;
}

.td-id {
  font-family: var(--font-mono);
  font-size: 0.62rem;
  color: #9e9cb0;
}

.td-name {
  font-family: var(--font-head);
  font-weight: 600;
  font-size: 0.875rem;
  letter-spacing: 0.01em;
}

.empty-state {
  text-align: center;
  padding: 4.5rem 1rem;
  color: var(--fg-dim);
  font-family: var(--font-mono);
  font-size: 0.68rem;
  letter-spacing: 0.16em;
  text-transform: uppercase;
}

.count-badge {
  font-family: var(--font-mono);
  font-size: 0.58rem;
  background: var(--lime-dim);
  color: var(--lime);
  border: 1px solid rgba(184,245,90,0.25);
  padding: 0.1rem 0.5rem;
  border-radius: 2px;
  margin-left: 0.6rem;
  vertical-align: middle;
  letter-spacing: 0.08em;
}

/* ── Footer ── */
footer {
  max-width: 860px;
  margin: 4rem auto 0;
  padding-top: 1.5rem;
  border-top: 1px solid var(--line);
  display: flex;
  justify-content: space-between;
  align-items: center;
  font-family: var(--font-mono);
  font-size: 0.58rem;
  letter-spacing: 0.12em;
  color: var(--fg-dim);
  text-transform: uppercase;
}

/* ── Toast ── */
.toast {
  position: fixed;
  bottom: 2.5rem;
  left: 50%;
  transform: translateX(-50%) translateY(0);
  background: var(--lime);
  color: #0d0d0f;
  padding: 0.7rem 1.6rem;
  border-radius: 2px;
  font-family: var(--font-mono);
  font-size: 0.72rem;
  font-weight: 500;
  letter-spacing: 0.1em;
  text-transform: uppercase;
  white-space: nowrap;
  box-shadow: 0 0 40px rgba(184,245,90,0.25);
  animation: toast-in 0.35s cubic-bezier(0.34,1.56,0.64,1) forwards,
             toast-out 0.35s ease 2.8s forwards;
  pointer-events: none;
  z-index: 9999;
}

@keyframes toast-in {
  from { opacity: 0; transform: translateX(-50%) translateY(1.5rem); }
  to   { opacity: 1; transform: translateX(-50%) translateY(0); }
}

@keyframes toast-out {
  from { opacity: 1; transform: translateX(-50%) translateY(0); }
  to   { opacity: 0; transform: translateX(-50%) translateY(1.5rem); }
}

/* ── Responsive ── */
@media (max-width: 600px) {
  body { padding: 0 1.25rem 5rem; }
  .field-row { grid-template-columns: 1fr; }
  .form-inner { padding: 1.5rem; }
  header { grid-template-columns: 1fr; gap: 1.25rem; padding: 2.5rem 0 2rem; }
  .header-meta { text-align: left; }
  header h1 { font-size: clamp(2.4rem, 10vw, 3.5rem); }
}
"#;

} // verus!
