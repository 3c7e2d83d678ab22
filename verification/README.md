# bc_forge_token

A token ledger with administrative controls — minting, burning, allowances with
expiration, lockups, clawback, pausing, one- and two-step ownership transfer, an
admin pool with multi-signature proposals, and operation fees — written in Verus.

## Layout

- `src/types.rs`, `src/error.rs`, `src/events.rs`: accounts, roles, actions,
  errors, events and the receipt an operation returns (signers to demand, events
  to publish).
- `src/admin.rs`: the access-control layer (administrator, roles, admin pool,
  proposals), each method proved against the plain-value state `AdminView`.
- `src/model.rs`: the token contract as a mathematical state machine: the state
  `TokenView` and, for every entry point, the outcome it gives.
- `src/token.rs`: the executable contract state `BcForgeToken`; every entry point
  is proved to realize the model's outcome, and a refused call changes nothing.
- `src/laws.rs`: properties across operations, among them that the recorded
  supply always equals all balances plus all locked amounts.
- `src/sums.rs`, `src/snapshot.rs`: sums over finite maps; moving the state to and
  from plain vectors for storage.
- `app/`: the Soroban contract around the library: address book, storage,
  authorization, event publishing and code upgrade.
- `tests/`: tests of the library.
