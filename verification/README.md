# scioly_bot

A Discord bot for Science Olympiad teams: it administers practice tests, collects
progress checks, answers rank queries over tournament results and sends reminders.

- `src/` is the verified library. Every function there carries a Verus contract:
  member and server records (`users`, `servers`), event names and kinds (`events`),
  progress checks (`progress_check`), rank queries over results files (`rank_query`),
  reminders (`reminder`), roster sheets (`roster`), the test and progress-check
  sessions (`sessions`), shared test documents (`sharing`), the streamed science
  helper reply (`ai`), calendar times and instants (`clock`), and the string
  operations they rest on (`text`).
- `app/` is the bot itself: the Discord commands, file storage, the Google APIs and
  the framework setup. It reads and sends; the decisions and texts of the commands
  come from the library. What stays there besides I/O: the closest-school match of
  the roster command, which scores names with floating point; the commands that only
  relay a message or a Discord action (`help`, `chat`, `remind`, `ban`, `kick`, `add`)
  with their one-line replies; and the framework's error hook.
- `tests/` runs the library on concrete values.

The bot reads `BOT_TOKEN` (the Discord token) and `SERVICE_ACCOUNT_CREDS` (the path
of a Google service account key) from the environment.
