# russh_sftp

Client-side logic of an SFTP (version 3) implementation, verified with Verus.

`src/` is the verified library:

- `buf`: length-prefixed fields read from and written to message buffers.
- `protocol`, `extensions`: the messages and OpenSSH extensions the client reads.
- `error`, `client::error`: error types, and the classification of server
  status replies (including SolarWinds Serv-U failure patterns).
- `utils`: packet framing limits, packet read errors, when a packet-reading
  loop ends, and the 32-bit time of SFTP attributes.
- `client::rawsession`: request ids, open-handle accounting against the
  negotiated limits, reply interpretation, retry/backoff, throttling and
  shutdown decisions.
- `client::session`, `client::fs`: extension negotiation, directory listings,
  read/write chunk sizes, end-of-file detection and seeking.
- `client::metrics`: request counters, latency window and percentiles, and
  connection health.

`app/` holds the asynchronous runtime around it (tokio tasks, timeouts,
the request transport, the server's request loop, the remote `File` with
tokio's I/O traits, and error types with `Display`).
