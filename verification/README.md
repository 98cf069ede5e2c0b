# lightning_client

A driver for Lightning Network nodes (LND over REST or gRPC, Core Lightning
over its REST plugin) and the small password-protected HTTP API in front of
it, with its logic verified by Verus.

- `src/` is the verified library: settings and backend selection
  (`config`, `factory`), the requests sent to each backend and the reading
  of their replies (`cln`, `lnd_rest`, `lnd_grpc`, `model`), the reading of JSON
  reply fields (`json`), hex and text helpers (`hex_codec`, `text`), password hashing and checking (`auth`) and
  the API's decisions (`api`).
- `app/` runs it: HTTP and gRPC calls, file reads and writes, the actix-web
  server, and the `set-password` tool (`app set-password`).
- `tests/` runs the library on concrete values.
