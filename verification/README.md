# cycl

A pomodoro timer with todos. The core is a Verus-verified library; a small
process around it opens the SQLite database, runs the one-second ticker and
serves MCP clients over HTTP on 127.0.0.1.

## Layout

- `src/` — the verified library
  - `timer.rs`, `engine.rs`: the timer's phases and the state the ticker and
    the commands share (pending work seconds, interruptions)
  - `month.rs`, `clock.rs`, `stats.rs`: year-months, local calendar time and
    the monthly totals and weekday-by-hour table
  - `protocol.rs`, `mcp.rs`, `tools.rs`, `server.rs`, `json.rs`: the MCP
    protocol rules, request routing, tool calls and the server token
  - `db/`: the schema migrations and the queries of each table
  - `workflow.rs`, `view.rs`, `category.rs`, `model.rs`, `text.rs`: database
    steps behind the tools, decisions of the screens, records, text helpers
- `tests/` — tests of the library against an in-memory database
- `app/` — the process: commands on standard input, events on standard
  output, the HTTP server, and the floating-point statistics
