# ai_usage

A library for summarizing the United States dollar cost of local AI coding agent usage
(Codex CLI, Pi and OpenCode session files), verified with Verus, and the `ai-usage`
program around it.

- `src/` is the verified library: session file parsing, token accounting, the bundled
  price catalog and Historical Cost, Reporting Periods and the Derived Summary, the Usage
  Source Inventory, terminal navigation and labels, and JSON Output values. Calls into
  `chrono`, `rust_decimal` and `std::path` go through small trusted wrappers whose
  contracts are stated beside them.
- `app/` is the program: command-line options, reading files, directories, the
  environment and OpenCode databases, printing JSON, and the Ratatui terminal.
- `tests/` exercises the library on concrete values.
