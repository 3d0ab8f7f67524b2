# payments_engine

A toy payments engine that reads a CSV of client transactions (deposits,
withdrawals, disputes, resolutions and chargebacks) and prints the final state
of every client account. Amounts are exact decimals (`rust_decimal`).

Layout:

- `src/` — the verified library (Verus).
  - `amount.rs`: decimal amounts held as mantissa and scale; `rust_decimal`'s
    addition, subtraction, comparison and rounding behind small trusted wrappers.
  - `transaction.rs`: transactions, ledger records, parsing of transaction types.
  - `account.rs`: client accounts and the rounded statement line.
  - `model.rs`: what one transaction does, as functions of plain values, both
    with the decimal arithmetic and with exact arithmetic.
  - `engine.rs`: the engine itself, proved to follow `model.rs`.
  - `laws.rs`, `soundness.rs`, `independence.rs`: properties proved of every state
    and transaction. Those about values (balances never go negative, held funds equal
    the open disputes, totals equal the booked deposits less withdrawals) are proved
    for the exact-arithmetic model; they reach the engine where each step's decimal
    arithmetic is exact (`step_fits`, `run_fits`), which `process_transaction` and
    `process_transactions` state.
- `app/main.rs` — the command-line program: CSV input and output.
- `tests/` — scenario tests.
