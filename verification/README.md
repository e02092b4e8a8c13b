# randobooru

A Discord bot that posts random images from booru APIs, configured entirely
from its SQLite database.

- `src/` is the verified library (Verus): request URL templates and tag
  encoding, reading booru answers (JSON paths, blacklists, source links),
  the steps of a random search, image recompression decisions, slash-command
  registration, command gating, retries and art history, the post cache
  behind the "Send to DM" button, the administration commands and panel
  (pages, forms, routes and replies), log lines and localized messages.
- `app/` is the program around it: Discord (serenity), HTTP (reqwest), the
  SQLite database (rusqlite), the clock and configuration files.
- `tests/` runs the library on concrete values.

Secrets are read from `secrets.toml`:

```toml
discord_token = "<token>"
admin_user_id = <user_id>
discord_application_id = <application_id>
```

All management goes through the `/administrate` slash command.
