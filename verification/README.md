# Oroswap contracts, verified

The logic of three CosmWasm contracts of the Oroswap AMM, written in Verus
with its behaviour stated in `requires` / `ensures` contracts and proved:

- the **factory**, which keeps one setting per pair type, creates pairs
  through a reply-driven instantiation, stores them under a collision-free
  key, lists them page by page, pauses and unpauses them one by one or in
  batches, and moves legacy pair keys on migration;
- the **fee granter**, which grants and revokes fee allowances (as
  protobuf messages for the chain), transfers coins, and keeps at most two
  distinct admins;
- the **pool initializer**, which splits the coins sent between the pair
  creation fee and the first liquidity, and provides that liquidity once the
  factory has created the pair.

Layout:

- `src/` is the verified library. `bytes`, `text`, `ordered` and `keys` hold
  the byte order, decimal text, the ordered byte-keyed map that stands for
  contract storage, and pair keys; `asset`, `error`, `response` and
  `ownership` are shared by the contracts; `outside` holds the few calls into
  `cw-utils` and `cosmos-sdk-proto`, with the contracts that are trusted about
  them; `factory`, `fee_granter` and `pool_initializer` hold each contract's
  state, operations and the properties proved of them (`laws`).
- `tests/` runs the library on concrete values.
- `app/` holds the CosmWasm entry points: serde message types, storage, the
  chain's address checks and queries, and the conversion of the library's
  messages to chain messages.
