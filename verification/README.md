# protocol

The verified core of an attestation protocol for Soroban: a schema registry
with per-address quotas, a registry of BLS12-381 public keys, and attestations
and revocations submitted by anyone on behalf of an attester who signed them.

- `src/state.rs` — the records and the store that holds them (`ProtocolStore`,
  viewed as maps keyed by byte strings).
- `src/instructions/` — the operations: `admin`, `schema`, `crypto` (key
  registration, point checks, signature verification) and `delegation`
  (nonces, signed messages, attestation, revocation). Each states its outcome
  and its effect on the store as a spec function.
- `src/utils.rs` — schema and attestation uids, nonces, the `XDR:` identifier.
- `src/host.rs` — the host computations reached through `soroban_sdk`
  (hashing, XDR encoding, BLS12-381), with the contracts the library relies on.
- `src/laws.rs` — properties that span operations, proved over the specs.
- `app/` — the Soroban contract: storage, authorisation, resolver calls, events.
