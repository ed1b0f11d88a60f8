# zao_transfer_core

The core of a peer-to-peer messenger and file transfer application, written in
Verus. Two devices find each other on a network or over a signaling server,
authenticate each other in a Noise handshake, and exchange chat messages, files
and folders; transfers are cut into chunks, checked, and resumed where they
stopped.

- `src/` is the library: identities, sealed messages, sessions, framing, the
  protocol, transfers, discovery, STUN, signaling and the decisions of the
  connection manager. It touches no socket, file, database or clock. Every
  function states its result, and the statements are proved. The primitives of
  cryptography come from their crates; what is relied on is stated beside each
  call, in `crypto.rs`, `noise_session.rs` and a few other places.
- `app/` runs the library: QUIC, WebSocket and UDP sockets, files, the encrypted
  database, JSON, and the two shells.
- `tests/` runs the library on concrete values.
