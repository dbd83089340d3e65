# codex_terminal

The logic of an editor's agent that works through the Codex program, and of the terminal sessions
and terminal settings beside it. The library is written in Verus: what its functions do is stated
in their contracts and proved.

- `src/`: the library. Its modules are described at the top of `src/lib.rs`.
- `app/`: ordinary Rust around it. It runs processes, reads and writes files, keeps
  pseudoterminals and threads, and converts to the types of other crates.
- `tests/`: tests of the library.

## What is trusted

Verus does not look into other crates. These calls are believed to do what is stated of them:

| Item | Calls |
| --- | --- |
| `json::parse_value` | `serde_json::from_str` to a `Value` |
| `json::open_value` | the variants of `serde_json::Value` |
| `aliases::parse_texts` | `serde_json::from_str` to a map of texts |
| `aliases::write_texts` | `serde_json::to_vec` of a map of texts |
| `identity::random_id` | `uuid::Uuid::new_v4` |
| `terminal_sessions::expand_tilde` | `shellexpand::tilde` |
| `String::push` | the method of the standard library |
