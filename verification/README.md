# librqbit (verified core)

The decision logic of a BitTorrent client's peer listeners and of its
torrent-search HTTP endpoint, written in Verus with contracts.

- `src/listen.rs` — listener modes, the address model, and the start-up state
  machine (which sockets to bind, on which addresses, when a failure is fatal,
  which port to announce).
- `src/search.rs` — website validation, search URL construction, reading
  search results out of the upstream JSON, and upstream response handling.
- `src/json.rs` — JSON documents as plain values, member lookup, field text,
  and the `serde_json` parser behind a trusted wrapper.
- `src/magnet.rs` — answer format and download header for resolved magnets.
- `src/error.rs` — API errors (status and message).
- `app/` — the socket binding loop, network namespaces, HTTP requests and axum
  handlers around the library.

The original's magnet-resolving handler has no counterpart in `app/`: it needs
the torrent session, the API state and the bencode crates of the wider client,
which are not available here; its format and header decisions are in
`src/magnet.rs`.
