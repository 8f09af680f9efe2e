# nexus_core

The core of Nexus, an offline-first nearby peer-to-peer messenger: device
identities, end-to-end encrypted and signed chat events, encrypted file
chunks with BLAKE3 verification, the length-prefixed wire frame, the sync and
pairing rules, and the store's ordering rules, verified with Verus.

- `src/` is the verified library. `src/primitives.rs` holds every call into an
  outside crate (Ed25519, X25519, HKDF, XChaCha20-Poly1305, BLAKE3, bincode,
  base64, hex, randomness, ULIDs, the clock), each with the contract it is
  trusted to meet; everything else is proved against those contracts.
- `app/` is the program around it: the SQLite store, TCP and mDNS, CBOR
  encoding, the node's event loop, the C JSON interface and the command line.
  It performs the I/O and takes the protocol's checks and answers from the
  library; what is left there is sequencing (which call follows which) and
  moving values in and out of the store and the network.
- `tests/` runs the library with the real outside crates linked.
