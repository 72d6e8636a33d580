# did-offchain-trade

Trading of data access rights over a two-party payment channel, verified with Verus.

Two peers open an *access condition* for a DID; the peer who owns the DID becomes its
owner and the other its grantee. Co-signed off-chain state proofs then drive it:

* op 2 finalizes an idle condition and grants the grantee the right to the DID's data;
* op 1 sets a finalized condition idle again;
* op 0 sets it idle and swaps owner and grantee.

Each proof must carry the condition's nonce, a higher sequence number than the last
one accepted, and sr25519 signatures of both peers over the SCALE encoding of the state.

Layout of `src/`:

* `types.rs` – accounts, signatures, access conditions, state proofs, events, errors.
* `scale.rs`, `sr25519.rs` – the calls into `parity-scale-codec`, `sp-core` and
  `sp-runtime` (SCALE encoding, signature verification).
* `table.rs` – key-value storage as a list of entries with distinct keys.
* `did.rs` – the DID owner registry that conditions consult.
* `spec.rs` – the module's state as a mathematical value and what each call does to it.
* `module.rs` – the module itself; every call's contract is stated over `spec.rs`.
* `laws.rs` – properties of every call: validity, atomicity of refusals, replay
  protection, persistence of conditions and rights, the status cycle.
