# vocoflow (verified core)

The decision-making core of the Vocoflow dictation app, written in Verus.

- `src/settings.rs` – the settings model, its defaults, equality and copies.
- `src/store.rs` – the process-wide settings store: initialization, section
  updates and resets, refresh from disk, finishing a persisted update; with
  the store's laws (read-back, idempotence, caps, section independence).
- `src/settings_file.rs` – whether a loaded settings file must be rewritten:
  exactly when its text is JSON that differs from the normalized settings.
- `src/history.rs` – transcript history: validity, cleanup, retention,
  append, delete, lookup and paging, with their laws.
- `src/runtime_flash.rs` – one-shot notices for the settings window.
- `src/events.rs` – versioning, de-duplication and queueing of
  settings-window events.
- `src/endpoints/` – the settings bridge's endpoints: their answers, error
  replies and follow-ups.
- `src/window.rs` – the settings window's custom protocol: routing and the
  answer (status, headers, body) to each request; notice-file watching,
  script queue and window showing.
- `src/resources.rs` – where installed files are looked for: the search
  roots, the settings page's resources and the window icon.
- `src/input.rs` – the global hotkey listener's state machine.
- `src/text.rs` – character-level helpers (trim, prefixes, ASCII case).

`app/` holds the process shell: serializable copies of the types, the files
on disk, the custom protocol's file reads, and start-up. `tests/` exercises the library on concrete values.
