# agritrust

AgriTrust is an invoice-financing protocol for farmers: a farmer registers a
harvest invoice, an authorized underwriting agent posts a risk verdict, a
liquidity provider advances part of the face value, and the farmer repays at
maturity (or the invoice is declared in default after a grace period).

The protocol is written here as a state machine with proved contracts. Every
entry point takes the caller and the block time as plain values and returns
the event it emits and the payments it makes, or the error it reverts
with; a refused call leaves the
state unchanged.

Layout:

- `src/motes.rs`: token amounts as 512-bit integers; arithmetic by
  `casper_types::U512`.
- `src/address.rs`: account and contract addresses.
- `src/types.rs`: invoices, verdicts, statistics, events, errors.
- `src/ledger.rs`: sums over the invoice registry.
- `src/protocol.rs`: the protocol state, its invariant and entry points.
- `src/laws.rs`: properties of the protocol across calls.
- `src/demo.rs`, `src/session.rs`: computations of the lifecycle walkthrough
  and of the payment session code.
- `app/`: the walkthrough program, and the wasm session code.
