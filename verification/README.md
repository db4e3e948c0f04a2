# grok_desktop

The backend of Grok Desktop, a desktop front end for the Grok Build CLI, as a
library whose behaviour is stated in contracts and proved with Verus.

- `src/` is the verified library: settings and their validation, projects and
  chats, attachment naming and checking, the command lines and protocol
  messages of Grok turns, the CLI overview and capabilities inventory, agent
  definitions and runs, the privacy audit and guard, the JSON the CLI prints
  (read through `serde_json`), Grok's TOML configuration (read and edited
  through `toml_edit`), the usage refresh, the launch status
  of the main window and the tray menu. `src/laws.rs` states properties that hold of
  every input or relate several operations.
- `app/` is the unverified part around it: files, processes, the serde
  copies of the library's types for the stored JSON files, and the usage
  snapshot (which holds floating-point percentages).
- `tests/` runs the library on concrete values.
