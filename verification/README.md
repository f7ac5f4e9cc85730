# linkly-tui

A keyboard-driven terminal client for [Linkly](https://linklyhq.com) short
links: pick a workspace, sign in, browse and search the links, edit them,
create new ones, import them in bulk from CSV, and export QR codes.

The decisions of the program live in a library verified with Verus; the
terminal, the network and the file system stay in a thin front end.

## Layout

- `src/` — the verified library.
  - `app.rs` and `app/` — the application state machine. `App::on_event`
    takes a key and `App::on_async` the answer of an API call; both return
    the commands (API calls, file writes) the front end performs. Their
    contracts state the next state and the commands for every input, and
    that the state stays well formed.
  - `create_form.rs`, `edit_form.rs` — the create form and the link editor
    (dirty tracking, update payload, saved baseline).
  - `import.rs`, `browser.rs` — CSV import: parsing rows into requests,
    the result files, and the file picker.
  - `qr.rs` — QR file names, colours and rendering.
  - `api.rs`, `models.rs`, `json.rs` — request building and the JSON the
    API speaks.
  - `input.rs`, `text.rs`, `ui.rs` — text input, string helpers, and the
    text the screens show.
  - `laws.rs` — properties of the library as a whole, proved.
- `tests/` — tests of the library on concrete values.
- `app/` — the terminal front end: event loop, HTTP client, configuration
  files, rendering.

## Building and checking

Verification runs Verus on `src/lib.rs`; the tests and the front end build
with Cargo against the library.
