# aquatic

Core of a BitTorrent tracker, verified with Verus.

- `src/udp`: connection ids (`validator`), channels between workers (`channel`), peers,
  counters and shared state of the UDP tracker
- `src/ws.rs`: shared types of the WebSocket tracker
- `src/http`: which workers the HTTP tracker runs (`plan`), and its TLS settings (`tls`)
- `src/net.rs`, `src/protocol.rs`, `src/access_list.rs`, `src/native_bytes.rs`: what these
  are built on
- `app`: sockets, files, executors and the log around the core
- `tests`: tests of the core

Keyed hashing (`blake3`), randomness (`getrandom`), channels (`crossbeam-channel`), the shared
access list (`arc-swap`), PEM files (`rustls-pemfile`) and TLS (`rustls`) are called through small functions marked
`external_body`, whose contracts are taken on trust. So are the byte order of integers, the
clock and the counters of the standard library.
