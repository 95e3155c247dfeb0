# pdf2zh

Front ends for the `pdf2zh_next` PDF translator: a terminal user interface
and the backend bridge of a desktop shell. Both drive a Python backend
process that speaks JSON lines, and both keep their settings in
`config.v3.toml`.

The logic is a Verus library; its contracts and laws are checked by Verus.

## Layout

- `src/` — the verified library.
  - `app`, `action`, `update`, `dispatch`, `events`, `session`: the terminal
    front end's state, its key handling, the actions and what each one
    does to the state, the backend's events, and the session around them.
  - `form_view`, `panels`, `overlay`: the text and layout of what the screen
    shows (form rows, status, progress and results panels, the dropdown).
  - `settings`, `translation`, `usage`: the settings JSON sent with a run,
    the checks before a run, and token-usage accounting.
  - `config`, `desktop`, `toml_model`, `toml_file`: loading and saving the
    configuration file, for the terminal front end and the desktop
    preferences: its text read with `toml` and edited with `toml_edit`
    behind contracts, a model of the parsed document and of the edits a
    save makes, and the round-trip laws.
  - `protocol`, `json`: the backend's messages and a JSON value model with
    its text form.
  - `backend`, `platform`, `ordered_map`, `text`: finding the backend,
    calls into `std` and outside crates behind contracts, and text helpers.
  - `laws`: properties that hold across the front end's operations.
- `app/` — the program around the library: terminal set-up and drawing with
  `ratatui`, the backend process, reading and writing the configuration
  file's bytes, serialisation, and the desktop shell's commands.
- `tests/` — tests of the library, run against the real outside crates.
