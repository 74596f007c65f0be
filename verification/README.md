# tabletbot

The logic of a Discord bot that keeps snippets and reaction roles, proved with Verus.

- `src/` is the verified library: the bot's state and its edits (`state`), the laws that
  relate them (`laws`), the slash commands as data and the answers to them (`commands`,
  `snippets`, `reaction`, `reply`), udev rule generation (`udev`), and number formatting
  and parsing (`text`).
- `app/` is the bot itself: the Discord gateway and HTTP calls, the state file, and the
  conversions between the library's types and those of serenity and serde.
- `tests/` runs the library on concrete values.
