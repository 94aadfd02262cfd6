# codex_plus_core

The Dream Skin theme manager of Codex++: deciding whether the base theme is
installed, whether the injector runs, how the injector is started and stopped,
and how the manager window and tray behave.

- `src/` is the library, verified with Verus: `text` (searching and decimal
  formatting over `Seq<char>`), `json` (members of a JSON document, read with
  `serde_json`), `cdp` (the DevTools HTTP exchange, the wait for the endpoint and
  the browser id), `dream_skin` (status, theme markers, the injector's state
  file), `launch` (the injection lock, start checks, injector command line and
  state record), `start` (the steps of a start as a state machine) and `manager`
  (window, tray and single-instance decisions).
- `app/` holds the file, process, socket and Tauri code that calls the library.
- `tests/` runs the library on concrete values.
