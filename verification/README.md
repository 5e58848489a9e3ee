# kucoin_trade

A verified core for a small KuCoin trading client, written in Verus.

`src/` holds the logic, each function with a contract that Verus proves:

- `signing`: HMAC-SHA256 signatures in standard Base64 (the form KuCoin's
  API keys of version 2 expect), the decimal rendering of timestamps, and the
  header-value check, with lemmas on the length and alphabet of Base64 text.
- `Kucoin::kucoin_client`: the client that signs each request when it is
  made (timestamp, method, path and body), and builds market and limit
  orders with fresh client order ids.
- `trade`: the client that signs its two endpoints once, when it is created.
- `Kucoin::websocket` and `auth`: websocket credentials, the connection URL
  and the ticker subscription request.
- `trading`: reading a credentials document as JSON.

The calls into `ring`, `base64`, `chrono`, `uuid`, `http` (through
`reqwest`), `url` and `json` sit behind small trusted wrappers whose
contracts state what those crates document.

`app/` is the program around the library: configuration and listings files,
HTTP requests, websocket I/O, and the serde forms of the library's types.
`tests/` runs the library against known HMAC-SHA256 values.
