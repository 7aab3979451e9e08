# bundlrs

The logic of a paste site (pastes with custom urls, groups, boards, user accounts,
SSM style markup, and a lightweight paste store), written in Verus: each function
states what it does in `requires`/`ensures`, and Verus proves it.

Layout:

- `src/` — the verified library.
  - `text.rs`, `number.rs` — character-level text operations; decimal text of numbers.
  - `cache.rs` — a keyed store, viewed as a map.
  - `pattern.rs` — regular-expression matching through the `regex` crate.
  - `utility.rs` — hashing (`sha2`), identifiers (`uuid`), time, the HTML page frame.
  - `db.rs`, `log_db.rs`, `model.rs` — the paste site's records and request rules.
  - `bundlesdb.rs` — records read from and written to database rows, the paste and user
    caches, atomic pastes, users and boards.
  - `pastemd/` — the lightweight paste store: options, url encoding (`idna`), requests.
  - `ssm.rs` — the SSM language and its compiler to CSS.
  - `markdown.rs` — Markdown rendering (`sauropod`) and the site's markup on top of it.
  - `pages.rs`, `booklist.rs`, `config.rs`, `sql.rs` — what pages show, the booklist,
    command-line arguments, database connections.
- `tests/` — tests of the library on concrete values.
- `app/` — the program: reads arguments and settings and checks them with the library.

The laws of the library (what holds across calls) are public proof functions whose
names start with `law_`.

A request that alternates database work and decisions (creating, editing or cloning a
paste) is a sequence of step functions: each takes what the previous action found
(a lookup, an insert) and gives the next action or the answer, so the caller performs
the database work and the library decides. The answers of the pages (status and text)
are given by `pages.rs` the same way.
