# terraria_console_backend

The back end of a web panel for TShock (Terraria) servers: panel users and
roles, server records and launching, world saves and backups, plugins,
TShock versions from GitHub, TShock's own user/group/permission database,
TShock's REST API, remote backup copies (NAS or Tencent COS), FRP tunnels
and a Telegram bot.

## Layout

- `src/` — the library, verified with Verus. It holds the panel's rules and
  computations as functions from plain values to plain values, each with a
  contract: role checks and the console command policy, paths and file
  names, save and plugin names, launch arguments, the process table, the
  release listing and archive unpacking paths, backup schedules, which
  servers a backup cycle takes, pruning and archiving decisions, COS request
  signing, TShock permission lists, REST request building, the edits to
  TShock's `config.json` (the panel's settings merged into it, and the REST
  token set up), token signing and password hashing, the item catalog
  parser, FRP configuration, and the Telegram bot's command handling. Public
  proof functions named `law_*` state properties that relate several
  operations.
- `tests/` — tests of the library on concrete values.
- `app/` — the HTTP server (axum), the database (SQLite), files, processes,
  HTTP clients and timers. It reads and writes, converts between the
  library's types and their serde copies, and asks the library for the
  decisions above. It looks up what needs the clock or the machine's time
  zone (the instant of the archive hour today and tomorrow) and runs the
  loops that drive the background jobs.
