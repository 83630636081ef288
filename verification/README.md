# cc_switch

Provider configuration for command-line coding assistants, as a library whose behaviour is
stated in contracts and proved by Verus.

A provider is a service that an assistant talks to, with the settings that it needs. The
library keeps the providers of each assistant, knows which one is current, and says what
goes into the live files that the assistant reads. A common snippet is shared by the
providers of an assistant: it is merged into the live files and taken out again before
settings are stored.

- `src/` is the library. It reads and writes no file: what was read comes in as a value, and
  what is to be written goes out as one.
- `tests/` runs the library.
- `app/` is the program around it: files, stored state, the terminal.

The crates `serde_json`, `toml`, `toml_edit` and `indexmap` are reached through a few
functions each, in `json_value`, `toml_plain`, `toml_doc` and `providers`. Their contracts
say what is taken for granted of those crates.
