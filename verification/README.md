# reessaie

Decisions for retrying HTTP requests as the `Retry-After` family of headers
says, with their contracts proved by Verus.

- `src/` is the library, verified: reading `Retry-After`, `X-RateLimit-Reset`
  and `X-Rate-Limit-Reset` headers (`header`), the textual forms involved
  (`text`), exact arithmetic on instants and durations (`time`), the `http`
  header map as the library reads it (`header_map`), and the retry policy's
  decisions and per-task store (`policy`).
- `app/` plugs these decisions into `reqwest-retry` and `reqwest-middleware`:
  the shared policy state, the current tokio task, and the trait impls.
- `tests/` runs the library on concrete headers and instants.
