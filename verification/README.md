# arcane_vote

Arcane Vote is a token-committed voting system on the Radix
ledger: members sign up for a soulbound badge, create proposals that last one
to three quarters, commit tokens to one option of a proposal, and take them
back, with a reward, once the proposal has ended.

`src/` holds the decisions of every component as state machines whose
contracts are stated over mathematical models (`Map`, `Seq`, integers):

- `decimal` — 18-digit fixed-point amounts; the arithmetic is that of
  scrypto's `Decimal`, called through wrappers.
- `table` — the finite maps the components keep their records in.
- `arcane_vote_style`, `arcane_main`, `arcane_vault`, `arcane_reward_style` —
  vote components, the main component, the token vault and the reward
  component of one deployment.
- `labyrinth` — the badge resources, core data, vote components, reward
  vault, member components and main component of the other.
- `access` — the access rules with which badge resources are created.

`app/` runs the components on the Radix engine: it checks proofs, moves
buckets, calls other components and emits events around the library's
decisions.

## Why the records are kept in `table`

The components keep their records in scrypto's `KeyValueStore`. That
store is not a value in the program's memory: `KeyValueStore::new` only
creates a node on the ledger and the value holds its id, and every read
and write (`get`, `insert`, `remove`) is a call into the Radix engine
(`ScryptoVmV1Api::kv_store_*`), which on any target but the ledger's
WebAssembly machine is `unimplemented!` (`scrypto/src/engine/wasm_api.rs`).
`insert` and `remove` even take `&self`, since the contents live on the
ledger and not in the value. So the contents of a store are not a function
of the value that the program holds, which a contract over it would have
to claim, and no call into it can run in this crate's tests.

Declaring the store to Verus would not mend that. `KeyValueStore<K, V>`
asks `K` and `V` to be `ScryptoEncode + ScryptoDecode + ScryptoDescribe`,
which the library's own types (its `Decimal`, its records) cannot be: those
traits come from scrypto's derives, which verified code cannot carry. And
std's `HashMap`, which one deployment uses, is specified by vstd only for
keys that `obeys_key_model` admits (the primitive integers and `bool`);
its keys here are option names and badge ids, strings, for which that fact
could only be assumed.

The library therefore keeps each store's contents in a `Table<K, V>`: a
`Vec` of entries whose keys are distinct, viewed as a `Map`. Its keys are
the plain values that the ledger's keys stand for (badge ids, component
addresses and option names as `String`, epochs as `u64`). `app/` holds that
state in its component structs.
