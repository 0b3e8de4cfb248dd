# canister_sync

Keeps an off-chain sqlite copy of Internet Computer canister data: token
transactions, the tokens of a token registry, and DSwap transactions.

- `src/` is the verified library: the operations and records and the rows they
  become (`types`), the statements a batch writes (`store`), how each record's table, insert and row
  line up (`schema`), the sync of one
  canister as a state machine with the queries it sends (`sync`), decimal texts
  (`text`), candid's LEB128 numbers (`leb128`) and what comes from candid (`wire`).
- `app/` is the program: it reads `./config.json`, talks to the canisters through
  an agent, sleeps, and runs the statements on the databases.

The configuration is a JSON list of entries with `canister_id` (or `canisterId`),
`canister_type` (or `type`: `token`, `wicp`, `token-registry` or `dswap-storage`)
and `db`.
