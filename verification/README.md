# webapp

A personal records registry: a form of five fields (first name, last name,
phone, address, age), validated on the server, stored in SQLite and listed in
a table.

- `src/` is the verified library (Verus):
  - `text.rs`: character-level helpers (trimming, splitting, searching,
    decimal numerals, integer parsing) with their specifications;
  - `form.rs`: the form, its validation rules and messages, and reading it
    from a URL-encoded body;
  - `html.rs` and `markup.rs`: escaping and rendering of the banners, the
    form, the table and the page;
  - `http.rs`: reading the request text, deciding the response, writing
    the response text.
- `app/main.rs` is the server: sockets, threads and the SQLite database.
- `tests/` runs the library on concrete inputs.
