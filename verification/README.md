# vellum-fe-tabbed

A tabbed, multi-session terminal frontend for text games, with a launch-time
profile picker and optional Lich proxy connections.

## Layout

- `src/` is the verified library (Verus). Every executable function there
  carries a `requires`/`ensures` contract over spec models (`Seq`, `Map`,
  views), and the public `proof fn lemma_*` items state the library's laws:
  what saving a profile twice does, that session switching commands parse back
  to themselves, that Next then Prev returns to the same session, that an edit
  saved from the form keeps the other profiles, and so on.
  - `connection`, `sessions_config`: saved profiles and session entries.
  - `login_wizard`, `wizard_keys`: the profile picker and its key handling.
  - `session_picker`: the session list and its add-session form.
  - `session`, `session_manager`: live sessions, focus, unread counts.
  - `session_keys`, `runtime`, `input`: command parsing and routing.
  - `tab_bar`, `layout`, `display`, `search_line`: what the screen shows.
  - `text`, `seq_util`: string and sequence helpers with their lemmas.
- `app/` is the unverified shell: the command line, terminal I/O (ratatui),
  TOML files, the OS keychain, the Lich proxy connections (a reader and a
  writer thread per session) and the shared counters around the session
  manager. It runs the character picker, the session list and the tabbed
  session screen, and asks the library where each key and command goes.
- `tests/` runs the library on concrete values.
