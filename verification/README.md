# xplane_web_api

Typed access to the documented X-Plane local web API, with its logic verified
by Verus.

- `src/` — the verified library:
  - `websocket`: websocket message models, the request-ID bookkeeping of the
    client (IDs start at 1 and count up by one, saturating at `u64::MAX`), the
    requests that each helper builds, and what the client does with each
    incoming frame.
  - `error`: how a failed generated REST call becomes a `RestClientError`.
  - `rest`: the REST base URL and the documented error body.
  - `cli`: the checks that a command-line front end for the REST API makes
    on its input.
  - `foreign`: the outside types that the library carries and the contracts
    of the outside functions that it calls.
- `app/` — the async websocket client (connect, send, receive, close), the
  serde forms of the message models, and error types with display messages.
- `tests/` — tests of the library on concrete values.

Not included: the typed REST client, which is generated from the API's
OpenAPI description (not part of this crate), and the command-line front end
that calls it. The crate holds what surrounds that client: its base URL, its
documented error body, the classification of its errors, and the input checks
of a front end.
