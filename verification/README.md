# ydelta

The verified core of yDelta, a fixed-rate lending protocol on Solana that
keeps every idle token earning in a marginfi pool. The library holds the
protocol's arithmetic and rules, each with a contract proved by Verus; the
runtime side (instruction decoding, account reads, token transfers) lives in
`app/`.

## Layout

- `src/math.rs` — 48-bit fixed point and exact `a * b / c` on 256-bit
  intermediates.
- `src/bytes.rs`, `src/pubkey.rs` — little-endian reads and key comparison.
- `src/protocol/marginfi_rate_calc.rs` — decoding marginfi bank and group
  accounts, the legacy and seven-point interest-rate curves, and projection
  of share values to a later time (never decreasing, monotone in time).
- `src/protocol/marginfi.rs` — conversions between atoms and fixed-point
  shares, sizing of withdraw / repay calls, post-call delta checks.
- `src/protocol/oracles.rs` — Pyth push and Switchboard pull decoding,
  staleness and confidence gates, staked-SOL pricing.
- `src/token.rs` — the SPL token program ids and the Token-2022 mint
  extension screen.
- `src/processor/` — the protocol's rules: fee configuration, two-step role
  handoffs, order matching and pricing, the match crank's fill budget, forced loan resolution, repayment, the loan's own transitions (settlement and
  liquidation gates, close-out, repayment, conversion, seat credits),
  loan promotion, seat withdrawals, vault share accounting (deposit, burn,
  opening and closing loans in a lender's book), claims and fee payouts,
  and risk-profile and sub-vault limits.
- `tests/` — executable tests of the library.
- `app/` — Borsh wire forms of the instruction parameters, account readers,
  and the token-transfer helpers.
