# endpoint

The verified core of a cross-chain messaging endpoint for Solana programs.

Integrators register adapters, enable them per chain for sending and for
receiving, and manage their admin through a two-step transfer or discard it
for good. Adapters pick messages up from the outbox and attest to incoming
messages; integrators receive or execute an attested message exactly once.

- `src/` is the library, verified with Verus: the state kept in each account
  (`state/`), the adapter bitmap (`bitmap.rs`), the message hash
  (`state/attestation_info.rs`, `encoding.rs`, `hash.rs`), address derivation
  (`pda.rs`) and one handler per instruction (`instructions/`). Each handler
  takes the contents of the accounts the instruction touches and returns the
  new contents and the event to emit, or the error; a refused instruction
  changes nothing. The properties that span instructions (replay protection,
  one attestation and one pick-up per adapter, the admin transfer, the
  immutability of a discarded configuration, the bounds of the adapter
  registry) are proof functions next to the handlers.
- `app/` is the Anchor program around it: account constraints, conversions
  between Solana keys and the library's keys, events and account closing.
- `tests/` runs the library on concrete values.
