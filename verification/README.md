# arcium_hello_world

A constant-product liquidity pool on Solana whose reserves and user balances
stay encrypted: the arithmetic runs as confidential computations on an Arcium
cluster, the program only ever stores ciphertexts.

The verified library (`src/`):

- `math` — the integer square root that fixes a new pool's liquidity-token supply.
- `circuits` — what each confidential computation computes, on plain values:
  pricing of swaps (0.3% fee, constant product), pro-rata redemption of
  liquidity, deposits and withdrawals; with the laws that a swap never lowers
  the constant product and that a swap's two steps create no tokens.
- `state` — the pool and balance accounts, errors, events, nonce encoding.
- `computation` — the circuits, their registered names and offsets, and the
  computations the program queues.
- `pda` — derivation of the pool authority address.
- `program` — each instruction and callback as a function from the accounts'
  state and the inputs to the new state and the effects to carry out.

`app/` is the Anchor program around it: account validation, token transfers,
queueing of computations and verification of their signed outputs. It needs the
compiled circuits (`build/*.arcis`, `*.hash`, `*.idarc`) that `arcium build`
produces.
