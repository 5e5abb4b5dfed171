# splitwise_cli

A command-line client for the Splitwise service, with an interactive
terminal view. The library under `src/` holds the logic, verified with Verus:

- `text` — decimal numbers, padding, names, markup stripping, byte and
  character cuts, trimming.
- `amount` — the sign of an amount text, as a float reading of it gives.
- `models` — the records the service returns.
- `display` — the lines that each listing command prints.
- `cli` — `key=value` arguments, listing queries, and the forms of the
  expense commands.
- `api` — the request each operation sends, and how replies are judged.
- `config` — where the API key comes from and how a saved key reads back.
- `tui` — the state machine of the interactive view (keys, clicks, lists).
- `panes` — the styled lines that the interactive view draws.

`app/` is the program around it: argument parsing, HTTP, JSON, the key file,
and the terminal. It hands plain values to the library and performs the
actions the library returns.
