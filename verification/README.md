# ethereum-poa-relay

Relays the headers of an Ethereum proof-of-authority chain to a Substrate runtime that
imports them.

- `src/` is the verified library: the header queues (`ethereum_headers`), the
  synchronization decisions (`ethereum_sync`), the Ethereum and Substrate-side header and
  receipt types (`ethereum_types`, `substrate_types`), the SCALE encoding of what is sent
  to the runtime (`scale_codec`, `substrate_types`), the byte strings of the RPCs
  (`rpc_text`) and the framing of the Substrate RPCs (`substrate_client`).
- `tests/` runs the library on concrete values.
- `app/` is the program around it: the command line, the JSON-RPC transport to both nodes,
  the synchronization loop, and the signing of the import transaction.

## Outside crates

- `parity-scale-codec` is the SCALE codec of Substrate; Substrate's crates import it under
  the name `codec`. The runtime decodes what the relay sends with it, so the library
  encodes and decodes through the same crate. The bytes that the library writes must match
  the SCALE encoding derived for the bridge runtime's Ethereum PoA primitives, `Header` and
  `Receipt` (with `LogEntry` and `TransactionOutcome`): the header's fields in the order
  `parent_hash`, `timestamp`, `number`, `author`, `transactions_root`, `uncles_hash`,
  `extra_data`, `state_root`, `receipts_root`, `log_bloom`, `gas_used`, `gas_limit`,
  `difficulty`, `seal`; the receipt's in the order `gas_used`, `log_bloom`, `logs`,
  `outcome`; a log entry's in the order `address`, `topics`, `data`; the outcome's variants
  in the order `Unknown`, `StateRoot`, `StatusCode`. Those primitives are not a dependency
  of this crate; `header_encoding` and `receipt_encoding` in `src/substrate_types.rs` state
  the layout that they are held to.
- `web3` and `serde_json` read and write the byte strings of the RPCs (`0x` and hexadecimal
  digits, `src/rpc_text.rs`); `web3` also gives the Ethereum node's types to app/ and the
  tests. `clap`, `log` and `env_logger` serve app/.
- `sp-core`, `sp-keyring`, `sp-runtime`, `frame-system`, `pallet-transaction-payment` and
  `node-primitives` are what app/ signs the import transaction with.
