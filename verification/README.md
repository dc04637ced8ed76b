# wan2gp_client

A formally verified library for talking to the Wan2GP ArtCraft Bridge (a local
HTTP API that runs Wan2GP video and image generation) and for the desktop
service that drives it.

- `src/` — the verified library:
  - `types` — the bridge's request and response types, and the task states;
  - `error` — the client's errors and their texts;
  - `client` — where each request goes, which replies count as success, and
    when waiting for a task ends;
  - `settings` — the settings store;
  - `commands` — what the desktop commands hand back, and settings updates;
  - `enqueue` — model and resolution choice, and generation requests;
  - `polling` — the decisions of the background task poller;
  - `encoding`, `text` — base64 (through the `base64` crate) and text helpers.
- `app/` — the I/O around it: the `reqwest` client, JSON forms of the types,
  the async commands, the enqueue handlers and the polling thread.
- `tests/` — tests of the library.
