# lending

A peer-to-peer lending contract whose rules are verified with Verus.

`src/` is the library. It holds the ledger state of the contract and every
entry point, each with a contract that says when the call is refused, with
which error, and which state it leads to otherwise. `src/laws.rs` and
`src/soundness.rs` prove what holds over all calls: that the books of every
loan balance, that loans follow their lifecycle, that roles are permanent and
fees keep to their ceilings, and that a flash loan never leaves the pool short.

`app/` runs the library as a Soroban contract. It asks the host for
authorisation, loads and stores ledger entries, moves tokens and publishes
events.

`tests/` runs the library on concrete values.
