# tgbot

A Telegram Bot API library whose logic is verified with Verus.

- `src/` is the verified library:
  - `types/` — the Bot API types, and how they are built from what the API sends:
    chats, chat members, responses, messages with their texts and entities (entity
    offsets count UTF-16 code units), keyboards, media and media groups;
  - `json.rs` — the JSON text of the values the library sends (field names, fields left
    out when unset, string escaping);
  - `request.rs` — requests, multipart forms and how each form field is sent;
  - `methods/` — the sticker and user methods of the Bot API;
  - `webhook.rs` — what the webhook server answers to each request;
  - `encoding.rs` — decimal text and UTF-16.
- `tests/` exercises the library on concrete values.
- `app/` holds what Verus does not see: serde copies of the raw types and their
  conversions, multipart bodies built with reqwest, and the hyper webhook server.

Left out: the `util-helper` crate of the same workspace (`get_env`, `run`, `RunnerBuilder`,
`Runner`). It reads the environment and runs a `carapax` dispatcher, and `carapax` is this
project's own framework, which this crate does not depend on. The webhook server in `app/`
hands each update to its handler as a JSON value, as there is no `Update` type to decode
it into: a body that is JSON but not an update is accepted there.

Also left out, because the files that define them are missing: the `Game` and
`PassportData` message data (a message carrying `game` or `passport_data` is built from
its other fields), `InlineQueryResult` and input message contents. Input media and media
groups follow the by-value builders of `types/input_media/`, not the older `&mut`
builders (`InputMedia*::new`/`thumb`, `MediaGroup::add_photo`/`add_video`).
