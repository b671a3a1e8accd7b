# gewe

A command-line client for the GeWe personal-WeChat API, with its logic verified
by Verus.

## Layout

- `src/` — the verified library.
  - `model/` — the request and response types of the API, and the shared types
    (`AppId`, `BotId`, `BotContext`, envelopes, `GeweError`).
  - `text.rs` — strings as character sequences: splitting, trimming,
    searching, and decimal integers (parsing with the exact outcomes of the
    standard library's integer parser, and printing), with their laws.
  - `cli/config.rs` — the stored configuration: bots, aliases, the resolution
    of token, API address and app id from flags and configuration, and the
    `config` command's effect.
  - `cli/wait_reply.rs` — the wait-reply state machine: which webhook events
    are awaited replies, when the wait ends, what subscribers do with relayed
    messages, message and port parsing.
  - `cli/pattern.rs` — reply patterns, through the `regex` crate.
  - `cli/webhook.rs`, `cli/login.rs`, `cli/moments.rs`, `cli/personal.rs`,
    `cli/tag.rs`, … — the flags of each command group and the decisions the
    commands make before and after calling the API.
- `tests/` — tests of the library.
- `app/` — the program: argument parsing, configuration files, HTTP calls,
  the webhook server and the wait-reply processes.
