# lazyjira

A terminal client for Jira. The library under `src/` holds its logic, verified with
Verus: what each key does to the lists and panes, which fetch it starts, how fetched
pages and issues are taken in, the URLs, queries and auth header sent to Jira, the
reading of Atlassian Document Format descriptions, and the text that every pane shows.
The program under `app/` reads keys, talks HTTP, parses JSON with serde and draws with
ratatui. It takes from the library what each key does, which fetch to start, the message
each fetch's outcome becomes, and the text of every pane and of the help popup; what is
left to it is styling, layout and the terminal.

Layout of `src/`:

- `app/`: the second interface's state (`state.rs`), key bindings, and the reactions
  to keys, fetched data and loop actions (`update.rs`, with the laws about them).
- `ui/`: list, detail, help and item components as state and text; `lines.rs` is the
  styled-text model the drawing maps to colours.
- `services/`: the service client's requests, pages, configuration, sort orders and
  ADF text extraction; `api/`: the REST client's requests, ADF rendering and answers.
- `navigation.rs`, `context/`, `commands/`, `data_manager.rs`, `models.rs`: the first
  interface's navigation, commands and data refresh.
- `json.rs`, `text.rs`, `time.rs`, `auth.rs`, `events.rs`: JSON values, text helpers,
  instants, basic authentication and key events.

The calls into `chrono`, `base64`, `nerd_fonts`, `serde_json` (the writing of a JSON
string literal) and std's `to_lowercase` sit behind small trusted functions whose
contracts say what those crates document.
