# prism (verified core)

The library in `src/` is the logic of the Prism command-line tool, written
in Verus and proved against its contracts:

- `cli` — the command-line grammar (global `--output`, `--network`/`-n`,
  `--verbose`/`-v` at every level, the `decode`, `inspect`, `trace`,
  `profile`, `diff`, `replay`, `whatif`, `export`, `clean`, `db` and `serve`
  subcommands, `-h`/`--help` and the `help` subcommand), stated as a
  machine that reads one argument at a time, and a parser proved to follow
  it; `cli_laws` proves properties of that grammar.
- `base64`, `decode` — strict base64 decoding and the report built for raw
  XDR input, the spinner text, the output format a decode uses.
- `report`, `renderers` — the diagnostic report and the rendering of its
  suggested fixes.
- `clean`, `db`, `logging`, `version` — what those commands compute and
  print, the log filter directives, the version line.
- `analysis` — the arguments of the commands that analyse one transaction.
- `serve` — the trace streaming protocol: the messages, the decisions on
  incoming WebSocket frames, and the replay session as a state machine
  (including that a failed send never changes or stops a replay).
- `text` — decimal rendering and string building.

`app/` is the program around it: argument collection, logging setup, file
system, WebSocket server and the calls into the core decoding and replay
engine. `tests/` runs the library on concrete values.
