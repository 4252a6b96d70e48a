# frakt

A cross-platform HTTP client library whose logic is verified with Verus.

- `src/` is the verified library: authentication headers and Base64,
  URL and header handling, cookies and cookie stores, request bodies
  (forms, JSON, multipart), request and client builders, WebSocket state,
  and the decision logic of each transfer backend (reqwest, WinHTTP and
  BITS, Cronet and Android's download manager, NSURLSession). Calls into
  `url`, `http`, `cookie_store`, `reqwest`, `urlencoding`, `serde_json`
  and `base64` go through small trusted wrappers whose contracts are
  stated next to them.
- `tests/` exercises the library on concrete values.
- `app/` holds what cannot be verified: sending requests with reqwest and
  tokio, streaming progress, file I/O for downloads and uploads, and the
  WebSocket transport.

Verify with Verus on `src/lib.rs`; the tests and `app/` build against the
compiled library.
