# calagopus_panel

The verified core of the Calagopus game-server panel, written in Verus.

- `src/` is the library. Every function in it is proved against its
  `requires`/`ensures`: the data models and their validation and update
  rules, the decisions of the HTTP layer and of the command line, the
  cache's rate limits and locks, the requests the panel sends to its
  daemons, and the maps and texts these are built from. Calls into
  outside crates (`uuid`, `sha2`, `serde_json`, `serde_json_path`,
  `urlencoding`, `rand`, `ignore`, `reqwest`'s URL parser, `indexmap`,
  `infer`)
  stand behind small trusted wrappers whose contracts say what the crate
  documents.
- `tests/` runs the library on concrete values.
- `app/` is a small command line around the library: it reads arguments,
  the environment and the file system, and prints what the library
  decides.
