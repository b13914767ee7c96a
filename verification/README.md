# apify_rust_client

The decisions of a client for the Apify API, with their contracts proved:
which actor ids and base URLs are acceptable, what URL each request goes
to, when a failed request is retried and after how long, which API key to
try next, what a poll of a run's status leads to, and which page of a
dataset to ask for next and how many of its items to keep.

- `src/` — the library. `client` holds the configuration, `validate` the
  input checks, `retry` the retry decisions and backoff, `run` the key
  rotation, `poll` the status polling, `pages` the dataset paging, `error`
  the errors and their text, `time` the time spans, `text` character-level
  helpers, and `laws` properties that span several calls.
- `app/` — the HTTP side: it performs the requests with `reqwest`, sleeps
  with `tokio`, decodes JSON with `serde_json`, logs with `tracing`, and
  asks the library what to do after each exchange.
- `tests/` — tests of the library on concrete values.
