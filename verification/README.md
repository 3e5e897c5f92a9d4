# creditra_credit

Verified core of the Creditra credit-line contract and of the gateway auction
contract, written in Verus.

* `src/` — the library. Each operation is a pure function from the stored
  state it reads (the line, the pause flag, the configuration records, the
  settlement marker) and the call's arguments to the new state or the revert
  reason, with
  an exact `ensures` over a spec function of the same name ending in
  `_result`. Laws of the state machine, of accrual and of the interest
  arithmetic are public proof functions beside the operations they speak of.
  - `math_utils`: rounding-aware fixed-point arithmetic and prorated interest.
  - `types`: statuses, errors, accounts, credit lines, configuration records.
  - `accrual`: interest accrual with the grace window for suspended lines.
  - `lifecycle`: open, suspend, close, default, reinstate, liquidation settlement.
  - `risk`: rate formula and risk-parameter updates.
  - `borrow`, `collateral`, `config`, `storage`: draw-status rules, collateral
    accounting, initialization and storage guards.
  - `auction`: bidding, closing, settlement signal and claiming.
* `app/` — the Soroban contracts (`Credit`, `Auction`): ledger storage,
  authorization, events and token transfers around the library.
* `tests/` — runtime tests of the library.
