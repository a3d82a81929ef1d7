# oreo

The decisions of the Oreo Discord bot, as a verified library.

- `src/` holds the logic: reading and writing colors, the replies and
  refusals of each command, which events reach which listeners, what the
  database log records of each event, how the database is brought in line
  with the server at start-up, how messages are cloned, and the caches.
  Each public function states its result in its contract, and Verus proves
  it.
- `app/` is the bot itself: it talks to Discord through poise and serenity,
  hands the library what it read, and carries out what the library decided.
- `tests/` runs the library on concrete values.
