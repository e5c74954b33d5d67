# castellan

A terminal chat client for an LLM assistant, with tabs, vim-like normal and
insert modes, configurable key bindings and a scrollable transcript.

The crate is a Verus-verified library; `app/` is the program around it.

- `src/input`: key events, input modes and the resolution of a key press
  into an action for the current mode.
- `src/settings`: the settings models, key and level name parsing, key chord
  matching and labels, and the outcome of loading the settings.
- `src/tui`: the chat tabs and transcripts (`app.rs`, `components/chat.rs`),
  text wrapping (`util.rs`), the text of each screen element and the screen
  geometry (`layout.rs`, over ratatui's constraint solver).
- `src/llm.rs`: what a provider reply or a failed request becomes in the
  transcript.
- `src/logging`: the console log line format.
- `src/config`, `src/modules`, `src/components`: the settings and composer
  rules of the desktop shell.
- `app/`: settings loading (`default.toml` and `CAST_*` variables), the
  tracing subscriber, the terminal, drawing with ratatui, the assistant
  requests and the screen loop.

The assistant reads `OPENAI_API_KEY` and, optionally, `CAST_LLM_MODEL`.
