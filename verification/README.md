# leni-deni

A peer-to-peer file sharing node for the local network, with its core
written as a verified library.

- `src/` is the library, verified with Verus: the wire protocol and its
  framing, peer discovery bookkeeping, connection registry, NAT traversal
  decisions, the file transfer protocol's steps, progress and chunk
  verification, metadata, sharing and replica registries, and payload
  encryption and peer authentication around ChaCha20-Poly1305.
- `app/` is the program around it: sockets, multicast DNS, files, the
  command line and the interactive menu.
- `tests/` exercise the library on concrete values.
