# xolotl

A Verus library for the Xolotl ratchet variation on the Sphinx mix network
packet format.

- `src/ratchet/` — the hash-iteration ratchet: twig indices and keys
  (`twig.rs`), and branches with their key derivation functions
  (`branch.rs`).  Each derivation builds its SHA3 input in verified code,
  hashes it through `src/digest.rs`, and splits the digest into keys.
- `src/sphinx/` — the Sphinx secret and, in `node.rs`, what a mix node
  decides about a packet: a state machine (`Processing::step`) that asks for
  cryptographic work, takes its outcome and decides how the packet goes on,
  plus the length checks, header slicing and queueing around it
  (`SphinxRouter`).
- `src/digest.rs`, `src/consttime.rs` — the trusted interfaces to
  `rust-crypto`'s SHA3 and to `consistenttime`.
- `src/bytes.rs`, `src/text.rs` — byte buffers and text renderings.
- `app/` — a driver that answers the state machine's requests with the
  node's cryptographic work, given through a trait.
