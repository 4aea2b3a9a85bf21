# ollama-harness

A terminal chat client for local [Ollama](https://ollama.com) models, written
in Verus: the logic is a verified library, and a thin binary draws it with
`ratatui` and does the disk and network work.

## Layout

- `src/` — the verified library (`ollama_harness`).
  - `shared/` — the input state, autocomplete state, commands, clock times,
    the chat history and the debug log; `text.rs` holds the character-level
    helpers and the trusted wrappers around `std` and `textwrap`.
  - `widgets/` — the text editor (`input.rs`), the autocomplete line, the
    message bubbles and scrolling, the selectable list, and the create-,
    select- and remove-assistant journeys.
  - `services/` — where assistant configurations live and how they are
    named, sorted and read, the path helpers behind `@` references, and the
    chat request and reply cleaning.
  - `session.rs` — the session state machine: a key press gives an `Effect`
    for the binary to carry out, whose outcome comes back through an `on_*`
    method.
  - `laws.rs` — properties that relate several operations.
- `app/` — the binary: terminal drawing, key reading, configuration files,
  directory listings and calls to the Ollama server.
- `tests/` — tests of the library on concrete values.

Requires an Ollama server on the default address (`http://127.0.0.1:11434`).
