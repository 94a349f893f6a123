# meeting_chat

Chat with a meeting transcript: the verified core of the feature that lets a
user ask questions about a meeting, live or saved, and streams the model's
answer back.

- `src/` is the library, verified with Verus:
  - `prompt` — the system prompt, keeping the most recent part of a long transcript;
  - `lines`, `sse`, `json`, `stream` — server-sent-event line splitting, event
    decoding for OpenAI-compatible and Anthropic streams, and the decoder that
    accumulates an answer from network chunks;
  - `turns`, `request`, `provider` — conversation shaping and the plan of a
    chat request for each provider;
  - `commands`, `registry`, `repository` — the decisions of the chat commands,
    the one-stream-per-meeting registry and the rows of stored messages;
  - `text` — string helpers.
- `app/` is the I/O around it: the process-wide registry, SQLite storage
  (sqlx), the HTTP streaming client (reqwest) and the command entry points.
- `tests/` exercises the library on concrete values.
