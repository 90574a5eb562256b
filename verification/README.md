# bria (verified core)

The logic of a bitcoin wallet and payout service, proved with Verus.

- `src/xpub`: extended public keys imported into an account, kept as events;
  rebuilding a key from its events, its fingerprint-based id, and the signer
  configured for it.
- `src/ledger`: the double-entry template a batch of payouts is posted with,
  written as the expressions the ledger evaluates; proofs that every layer
  of it is balanced and that every parameter gets one value of its type.
- `src/payout`: the rows payouts are stored in.
- `src/app`: what creating a wallet decides (which xpub, which ledger account).
- `src/error.rs`, `src/entity.rs`, `src/primitives.rs`: the error, the event
  list, identifiers and key material.
- `app/`: the database and ledger calls, and the serialized forms of the
  library's types.
- `tests/`: tests on concrete values, one or more per proved property.
