# updown

A command-line client for the [updown.io](https://updown.io) monitoring API,
whose decisions are proved correct with Verus.

- `src/` is the verified library. For every command it plans the one API request
  to send (method, path, query, JSON body) and what shape of reply to decode, and
  it renders the decoded reply into what is printed: tables, aligned key/value
  listings, confirmations, and the default AXI output (a summary line, TOON rows,
  follow-up hints, fields cut at 200 bytes, structured `error{code,message}`
  reports). It also resolves the API key (flag, then `UPDOWN_API_KEY`, then the
  config file), turns HTTP statuses into typed errors, and decides how a failed
  run ends. Each public function's contract states its result exactly; the
  `law_*` proof functions state properties that span several calls.
- `app/` is the program around it: argument parsing (clap), reading the
  environment and `~/.config/updown/config.toml`, HTTP (reqwest), JSON decoding
  (serde), table drawing (tabled), TOON encoding (toon-format) and printing.
- `tests/` runs the library on concrete inputs, including the command-line
  scenarios played through the library.
