# racoon_typper

The logic of the Racoon Typper touch-typing trainer as a Verus library.
Every function in `src/` carries a contract. Verus proves all of them
except the small trusted wrappers around std, chrono, serde_json and
rusqlite calls, whose contracts are believed and are documented where the
wrappers are declared.

## Layout

- `src/` — the verified library.
  - Typing: `text`, `typing` (the text buffer and its keystroke laws),
    `input`, `modes`, `lesson`, `engine` (the session lifecycle),
    `stats`, `viewport`, `finger_map`, `sound`.
  - Practice content: `custom_texts`, `text_pack`, `adaptive`, `course`.
  - History and analytics: `analytics`, `csv_roundtrip`, `burst`, `weak_keys`,
    `finger_stats`, `replay`, `replay_store`, `reporting`, `streaks`.
  - Durability: `finalization` (the finalization ledger and the session
    finalizer's decisions), `committed_test` (whether a test left by an
    interrupted finalization is the intended one), `session_ledger`,
    `failure`, `error`,
    `backup`, `profile`, `settings`, `models`, `clock`, `domain`.
- `tests/` — tests of the library, run against the compiled crate.
- `app/` — what stays outside the proofs: fractional metrics, the SQLite
  adapters that read rows and perform the writes the library decides on,
  file backups, the settings file and the JSON documents.

Calls into chrono, serde_json and rusqlite that the library makes stand
behind small trusted wrappers whose contracts are documented where they are
declared.
