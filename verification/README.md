# ultidesk

The platform-independent core of Ultidesk, a two-machine KVM and window-projection
tool, written as a Verus library. Verus checks every function in `src/`; the functions
whose result can be stated carry contracts it proves, while those that only hand out
fresh random keys and ids state nothing of their random part.

- `src/` — the verified library: the projection and KVM state machines, input loop
  prevention, key and button translation, the captured-input forwarder, identities,
  fingerprints and pairing codes, pinned peers and their permissions, the agent's
  per-connection session and permission gate, line framing, the audio stream format,
  configuration and runtime paths, and the control app's agent answers. Calls into
  `sha2`, `ed25519-dalek` and `uuid` sit behind small trusted wrappers in
  `src/crypto.rs`, `src/ids.rs` and `src/text.rs`, each documenting what it assumes.
- `tests/` — tests run against the compiled library.
- `app/` — the unverified edges: the process environment, files on disk, the clock,
  JSON on the wire, the floating-point halves of scroll and audio timing, and the
  transport's half of a session, which makes the injector calls the session names.
