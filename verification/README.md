# memebot

A Discord bot that posts random Reddit memes, counts how often its commands
are used, and lets a user page through memes with reactions.

- `src/` is the verified library (Verus): how posts are shown and picked,
  the command counter and its replies, emoji and reaction rendering, the
  replies to meme reactions, the paging state machine of `~momo`, and the
  routing done around every command.
- `app/` is the program around it: Discord (serenity), Reddit (roux,
  reqwest), JSON (serde) and the event loop.
- `tests/` runs the library on concrete values.
