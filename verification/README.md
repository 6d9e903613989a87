# tempo_rpc

The decisions that the Tempo node's Ethereum JSON-RPC handlers take, verified with Verus.

- `primitives`: addresses, hashes and 256-bit integers; the integer operations are those of
  `alloy_primitives`.
- `gas`: how much gas the payer of a fee can pay for, from the lookups to the figure.
- `nonce`: whether a call request needs its stored nonce, and filling it in.
- `transaction`, `forward`, `channel`: handing a transaction on to the subblocks service, over a
  `tokio` broadcast channel, or to the pool, with retries.
- `receipt`: adding the fee payer and the fee token to receipts.
- `api`: the API that holds these together, and its builder.

Lookups, storage reads, sends to the pool and waiting happen outside: a function here says what to
ask for next, and another takes the answer. `app/` does the asking inside the node.
