# blx_chain

Verified state transitions of the BLX chain pallets, written in Verus.

- `src/storage.rs`: the storage map that every pallet keeps its items in, with its
  map view.
- `src/primitives.rs`: accounts, origins, dispatch errors, addresses and the
  `StaticLookup` interface.
- `src/allocator.rs`: asset balances per account, trades and airdrops.
- `src/blx_storage.rs`: annual allocations and the APN tokens that carry them.
- `src/loose_lookup.rs`: marking accounts whose two addresses agree.
- `src/claimer.rs`: claiming APN tokens for a queued task, and the name lookup.
- `src/claimer/offchain.rs`: the decisions of the claimer's off-chain worker, as step
  functions from what its host observed to what it does next.
- `src/scale.rs`: SCALE encoding of numbers, flags and byte vectors, by way of
  `parity_scale_codec`.
- `src/text.rs`: UTF-8 decoding and decimal digits.
- `src/water_balance.rs`: the water currency interface.

`app/` holds the host side: the JSON form of the claimer's data and the
off-chain worker's runs over a host that performs storage, HTTP and signing.
