# p2p_core

A peer-to-peer file transfer library: devices on a LAN find each other by
UDP broadcast, pair with a four-digit code, and send files over QUIC; a
browser can also upload files through a token-protected web page, on the
LAN or through a public tunnel.

The crate is written in Verus. `src/` holds the rules of the system with
their contracts, proved by Verus: the discovery packet format, message
framing, the pairing table and its 24-hour expiry, the pairing handshake on
both sides, file-name sanitizing, transfer and upload limits, the
Content-Security-Policy of the web page, address selection, the backend's
share state, and the state of the user interface.

`app/` is the unverified part that talks to the world: sockets, files,
timers, JSON, and the backend loop that drives the library.

Layout of `src/`:

- `discovery.rs` – discovery packets and the reaction to a received one
- `transfer/` – limits, framing, file-name checks, the pairing handshake,
  the sender's and the receiver's decisions, digests
- `pairing.rs`, `config.rs`, `keyed.rs` – paired devices and their expiry
- `http_share/` – the web share: headers, URLs, upload admission and limits
- `identity.rs`, `paths.rs` – the key file and paths
- `backend.rs` – share state and codes waiting for a transfer
- `ui.rs`, `app_view.rs`, `peers.rs` – dialogs, the status log, the share
  switch, the device list
- `sizes.rs` – byte counts for display
- `text.rs` – character classes, trimming and decimal printing
