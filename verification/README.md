# pitboss

A Discord moderation bot that keeps a watchlist of users to ban, or to put
into "the pit" (a restricting role), and acts on it when they join again.

`src/` is the library, verified with Verus:

- `models` — the watchlist rows and the configuration, as plain values.
- `text`, `mention` — decimal digits, and reading the user id out of a
  command's mention argument (serenity's argument parser picks the argument).
- `checks` — the admin, enabled-command and mention checks.
- `replies` — every message the bot sends, and its exact text.
- `action`, `commands`, `join` — the five commands and the member-join handler
  as state machines: each step takes the outcome of the last outside action
  and gives the next one.
- `laws` — what every run satisfies: it finishes, touches only the user it is
  about, messages before it bans, and undoes failed Discord actions in the
  watchlist.

`app/` runs the bot: it reads `config.yaml`, talks to MySQL through diesel and
to Discord through serenity, and performs the actions the library asks for.
