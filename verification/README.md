# openbn

A phonetic (Avro-style) Bangla input method: Romanized keys are transliterated
into Bengali Unicode, and an IBus engine turns key events into composition
updates and commits.

- `src/` — the library, verified with Verus:
  - `rules.rs`: the rule table (longest Roman sequences first), the whole-word
    overrides, and the Bengali consonant class;
  - `translate.rs`: the transliteration, specified as a left-to-right,
    first-matching-rule reading of the word;
  - `engine.rs`: the composition buffer and typing mode;
  - `ibus.rs`: the key-event decisions of the IBus engine and the texts it sends;
  - `address.rs`: reading the IBus address out of an IBus bus file;
  - `rule_set.rs`: building a sorted, duplicate-free rule table from compact
    rule specifications.
- `tests/` — tests of the library.
- `app/` — the IBus daemon: D-Bus plumbing (zbus, tokio), environment and file
  access, and logging. All decisions are delegated to the library.
