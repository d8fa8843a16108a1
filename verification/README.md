# moonriver_runtime

The decision logic of the Moonriver parachain runtime, verified with Verus.

- `currency`: the MOVR units and the storage deposit formula.
- `params`: the monetary parameters (fee multipliers, governance and staking
  minimums, identity, proxy and announcement deposits).
- `gas`: block weight limits, the gas/weight mapping of the EVM, the minimum gas
  price and the block gas limit.
- `numeric`: `Perbill` arithmetic, saturating conversion and 256-bit words,
  called from `sp-arithmetic` and `primitive-types`.
- `call`: the runtime's calls, by pallet.
- `proxy`: the proxy kinds, the calls each may make, and which kind covers which.
- `maintenance`: the base call filter and the calls open in maintenance mode.
- `fees`: the 80 : 20 split of fees between burning and the treasury.
- `txpool`: pool admission and the effective gas price used as priority.
- `version`: the runtime version.

The pallet wiring of the runtime (`construct_runtime!`, the pallet
configurations and the runtime APIs) lives in the FRAME crates and is not part
of this library.
