# ollama-cli

A command line tool and terminal interface for managing remote Ollama
servers, written in Verus.

- `src/` is the verified library. It holds the configuration and its URL
  profiles (`config`, `profiles`, `config_cmd`), number and date display
  (`numfmt`, `datetime`), the decisions of each command (`cli`, `client`,
  `progress`, `library`, `benchmark`), and the terminal interface
  (`tui`): key bindings, the state machine that every key press and server
  reply goes through, Markdown rendering and the text of every panel.
  Calls into pulldown-cmark, chrono and scraper stand behind small trusted
  wrappers whose contracts name what those crates compute.
- `app/` is the program around it: argument parsing (clap), HTTP requests
  (reqwest, tokio), the configuration file (toml, directories), printing,
  and drawing the interface (ratatui, crossterm, tui-textarea).
- `tests/` runs the library on concrete values.

URL resolution order: `--url` flag, then the active profile, then the
default URL.
