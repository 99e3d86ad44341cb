# contracts

Two Soroban contracts for course certificates, with their logic verified
by Verus:

- `src/certificate.rs`: the certificate registry (an administrator, one
  certificate per course and student, revocation, meta-transactions with
  per-signer nonces, and the events emitted), as a state machine over its
  instance storage; `src/certificate_laws.rs` proves what holds across its
  operations.
- `src/token.rs`: the RS-Token contract (non-transferable balances per
  student and token id, minted only by the configured certificate
  contract, burned by the owner or the student); `src/token_laws.rs` holds
  its laws.
- `src/store.rs`: the keyed store both contracts keep their entries in;
  `src/bytes.rs`: byte-string helpers. Addresses, symbols and names are held
  as byte strings (an address as its strkey).
- `app/`: the Soroban entry points, which read storage, let the verified
  model decide, then write storage, publish events and panic as it answers.
