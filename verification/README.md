# xkb_data

The keyboard layouts, models and options that the XML rules files of
xkeyboard-config describe, and the rules by which the sections of the
system's base and extras files and of the user's files are located and merged.

- `src/` is the library, verified with Verus: the data types (`lib.rs`,
  `models.rs`, `options.rs`, `registry.rs`), the location of the rules files
  (`rules.rs`), and the merging of sections (`section.rs`, `layout.rs`,
  `options.rs`). It takes what was read from disk and the environment as
  plain values.
- `app/` reads the files and the environment, deserializes the XML with
  serde-xml-rs into copies of the library's types, and hands the results to
  the library.
- `tests/` exercises the library.
