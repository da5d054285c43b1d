# basset_vault

Verified decision logic of the Nexus bAsset vault contracts (Terra, Anchor):
the Terra transfer tax, the steps of repaying the Anchor loan, the strategy's
borrowing advice, the split of reward profits, deposit and withdrawal shares,
the set-up of the vault's child contracts, and the reward indices of the staking and farmer contracts.

- `src/` is the library, written in Verus. Every public function carries a
  contract over mathematical models (`int`, `nat`, `Seq`); the 256-bit
  arithmetic is carried out by `cosmwasm_bignumber`, and integer division by
  its inner type `bigint::U256`; their operations are specified at the
  wrappers in `src/math.rs`. Laws that relate several calls
  stand as public proof functions beside the functions they speak of.
- `tests/` runs the library on concrete values.
- `app/` is the vault as a CosmWasm contract: entry points, storage, queries
  and wire formats, around the library's decisions.
