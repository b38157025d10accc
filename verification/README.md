# lime

Verified logic of LIME's capped continuous payoff Markets on Solana.

- `src/` is the library, verified with Verus. Each instruction of the three on-chain programs is
  a function from the contents of its accounts (plain values) and its arguments to the accounts
  after it, or an error; its contract states the result exactly.
  - `market.rs`: protocol admin and the Market lifecycle (Preliminary, Active, Paused, Pending
    Resolution, Resolved, Settled, Cancelled).
  - `vault.rs`: Collateral deposits and withdrawals, transfers for settlement, and Trade
    Execution of two Signed Orders, which locks `Quantity * Price` from the buyer and the rest of
    the Quantity from the seller at the sell order's price, and counts the Quantity into each
    order's fill account without ever passing the order's Quantity.
  - `signed_order.rs`: the byte encoding of a Signed Order, the checks that bind an order to a
    Trade (version, network, programs, Market, side, Price, expiry), and the matching of an order
    to the instructions of the transaction that call the Ed25519 signature verification program.
  - `settlement.rs`: Resolution with a linear payoff ratio, Claims of Payouts (only from a
    Resolved or Settled Market) and Refunds, each once per Position; the Short Payout is the
    Quantity less the Long Payout.
  - `address.rs`, `token.rs`: account addresses and what the programs read of token accounts.
  - Proof functions named `lemma_*` state the laws of the protocol: lifecycle transitions,
    collateral conservation in Trade Execution and the Vault's total backing its users'
    Collateral, signed and crossing orders, no order filled past its own Quantity, solvency of
    Payouts, single Claims and Refunds per Position, final Resolutions, and accounts created once.
- `app/` is the Anchor code around the library: account loading and program-address checks, the
  clock, reading the instructions sysvar, token transfers (Claims and Refunds ask the vault
  program for them) and events.
- `tests/` runs the library on concrete values.
