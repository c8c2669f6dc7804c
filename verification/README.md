# statuspage

A status page: monitors are checked, incidents opened and closed, people told and
paged, and anybody may look at the public page.

- `src/` is the library: the rules of the service, each with a contract that Verus
  proves. Times are nanoseconds since 1970, ids are 128-bit numbers.
  - `api/` what the management API accepts, refuses and answers
  - `auth/` who a request comes from, sessions, tokens and sign-in links
  - `engine/` incidents, deliveries, escalations and cleanup
  - `public/` what visitors see: the snapshot, the feed, badges and links
  - `ui/` what the pages in the browser show, and how they talk to the server
  - `text`, `time`, `codec`, `markup`, `error`, `domain`, `idempotency` what the
    others share
- `app/` is the program around it: an HTTP server that keeps its rows in memory, and
  the pages in the browser. It reads the clock, makes ids and secrets, sends and
  stores; what to send and store, it asks the library.
- `tests/` run the library on concrete values.

The settings are environment variables that begin with `STATUSPAGE_`; see
`Settings::from_env` in `app/state.rs`.
