# nago_telegram

A Telegram Bot API client whose decisions are verified with Verus.

- `src/` is the library: the methods' parameters and deadlines, the request a
  call posts, what the end of an exchange and a reply mean, commands in
  messages, keyboards, and HTML escaping. Every function carries its contract,
  and the `law_` proof functions state what holds across them: escaping loses
  nothing, white space alone separates words, what was not set is not sent, no
  error depends on the bot's token.
- `app/` is the network half over nago-http and nagoya: it encodes parameters
  and reads replies with serde_json, posts, and hands each outcome back.
- `tests/` runs the library on concrete values.

The bot token is part of every request path. No error carries it, and neither a
`Bot` nor a `Post` can be printed.
