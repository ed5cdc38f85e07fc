# stableroute_contracts

Verified core of the StableRoute Soroban router.

- `src/lib.rs`: `RouterError` and its wire codes, the `DataKey` storage layout,
  and the router's identity entrypoints (`version`, `route_tag`).
- `src/error_taxonomy.rs`: the error catalog (descriptors, code lookup,
  operation families, class counts) with its partition and round-trip laws.
- `src/pool_storage.rs`: the typed pair namespace, the slot-to-`DataKey`
  mapping, slot ordinals and labels, and the pair TTL policy.
- `app/lib.rs`: the Soroban contract surface: `#[contracttype]` copies of the
  library types, the contract entrypoints, Soroban-`Vec` catalog views and the
  persistent-storage TTL bumping.
