# dtiw385

Remote control of DTIW385 television decoders over their HTTP API, written
in Verus.

- `src/` is the verified library: key codes (`key`, `enums`), decoder
  addresses and their text (`addr`, `text`), command URLs, reply checks and
  network scans (`lib.rs`), decoder handles built by builder calls
  (`decoder`) and optional-parameter commands (`commands`). The HTTP client
  comes from `reqwest` (`http`).
- `app/` is the program around it: the HTTP requests, the scan's tasks, the
  JSON decoding and a small web remote control.
- `tests/` runs the library on concrete values.
