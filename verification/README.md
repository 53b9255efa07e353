# lantern-capabilities

The service-layer capability broker of LanternOS, verified with Verus.

A `Broker` mints attenuated, badged capabilities through a kernel backend
(`BrokerBackend`), hands them to clients over IPC, and keeps its own
revocation table: badges are handed out as 1, 2, 3, ..., a grant table holds
at most `MAX_GRANTS` of them and never reclaims a slot, and a badge that was
never minted reads as revoked.

- `src/rights.rs`: `Rights`, a set of rights as bits.
- `src/error.rs`: `SyscallError` and `CPtr`.
- `src/backend.rs`: the `BrokerBackend` trait, the confined `Abi` marker, and
  the packing of a mint's badge and rights into one message register.
- `src/broker.rs`: `Broker`, its view (the revocation flags of the minted
  badges) and its contracts; a mint is split into `plan_mint` (the broker's
  own decision), the kernel call, and `complete_mint` (what the kernel's
  answer does to the table).
- `src/laws.rs`: properties of the broker across operations.
- `app/`: the two kernel backends, which call the kernel crates.
