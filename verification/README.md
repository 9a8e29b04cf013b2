# amm_video

A constant-product automated market maker for Solana, with its decisions
verified in Verus.

- `src/` is the verified library. For each instruction of the pool
  (initialize, deposit, withdraw, swap, collect fees) it decides whether the
  request is accepted, and returns either the exact list of token movements
  to perform (`actions::Action`) or the exact pricing-curve computation to ask
  for, followed by a `finish` step that turns the curve's answer into the
  movements. The swap's basis-point fee arithmetic, the slippage checks, the
  authority check and the routing of fees to the treasuries are proved
  against contracts; `laws.rs` holds the properties that span functions.
- `app/` is the Anchor program: account validation, the token-program calls
  that perform the movements, and the calls into the `constant-product-curve`
  crate.
- `tests/` runs the library on concrete pools.
