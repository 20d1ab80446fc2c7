# amm_program

The logic of a two-token constant-product pool, verified with Verus.

- `src/` is the library. `state` holds the pool's configuration, `contexts` the
  instructions (`Initialize::init`, `LockPool::lock`/`unlock`, `Swap::swap`,
  `Withdraw::withdraw`), `plan` the token movements they ask for, `seeds` the
  signer seeds of the pool's configuration address, and `laws` the properties
  that relate the instructions. The curve itself is handed to `swap` and
  `withdraw` as a function, so that it is asked only once the checks pass.
- `app/` is the on-chain program around it: account validation, calls into the
  token programs and the curve, and events.
