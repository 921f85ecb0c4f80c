# fanilab

The FaniLab logistics protocol: three cooperating contracts that hold a
sender's payment in escrow while a delivery is under way, track the delivery
from creation to confirmation, and keep drivers' reputations.

## Layout

- `src/` is the verified library. Each contract is a state machine over
  plain values: its storage is a Rust value with a mathematical view, and
  every entry point is a method whose contract says, for every input, how
  the view changes and what is returned (including exactly when and why it
  fails, in which case nothing changes).
  - `escrow.rs`: custody of funds, release (less the platform fee and any
    volume discount), refunds, disputes and split settlements, expiry,
    settlement-contract timelock, two-step admin handover, pause.
    `escrow_laws.rs` proves the properties the protocol relies on, among
    them that the value recorded as locked per token always equals what the
    live escrows hold.
  - `delivery.rs`: the delivery state machine, metadata limits, batches,
    and the calls it asks the host to make to the escrow and reputation
    contracts.
  - `reputation.rs`: user and driver registration, KYC, capped reputation
    scores, tiers.
  - `index.rs`, `entries.rs`, `math.rs`, `types.rs`: per-owner id lists,
    maps written out as entry lists, saturating and clamped arithmetic, and
    the shared domain types.
- `app/` puts the contracts on the Soroban host: authentication, storage
  between invocations, ledger time, token balances and transfers,
  cross-contract calls and events. It holds no protocol rules.
- `tests/` runs scenarios of each contract against a small in-memory host.

Addresses are numbered per invocation by the host (`Addr` is a `u64`); the
library compares identities as integers. Facts only the host knows, such as
the ledger time or the contract's token balance, are arguments.
