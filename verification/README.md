# poli_page

Client library for the Poli Page PDF rendering API.

- `src/` is the verified core, checked by Verus: the error model and its
  classification of API statuses, the `Retry-After` parser and exponential
  backoff, the per-attempt decisions of the retry loop, request URLs,
  headers and path-segment encoding, idempotency keys, client options and
  the wire-shape types. Calls into `http`, `url`, `uuid` and `httpdate` sit
  behind small trusted wrappers whose contracts are stated in their doc
  comments.
- `app/` is the asynchronous client around it: the `reqwest` transport, the
  `tokio` sleeps and timeouts, the hooks, JSON (de)serialization with
  `serde`, and file output. It performs what the core decides.
- `tests/` exercises the core on concrete values.
