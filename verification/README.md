# flowpay

A subscription-payment contract for the Soroban host, with its rules verified
in Verus.

- `src/` is the verified library. `flowpay::FlowPay` holds the contract's
  calls as functions from the stored values and environment facts a call
  reads (ledger time, token allowance, stored records) to what it writes, or
  to the `Refusal` that aborts it. The account type is a parameter, so the
  rules are independent of the host's address representation, and the
  host's vectors (charge history, revenue history, subscriber pages) are
  held as std `Vec`; `app/convert.rs` converts between the two.
  `src/laws.rs` proves properties that span calls: the first charge's due
  date, that a charge restarts the interval, pause/resume round trips, that
  a cancelled subscription is inert, the daily spending limit, idempotent
  migration, bounded subscriber pages and charge history, that a
  merchant's revenue is the sum of its payments, that the active count
  equals the number of active subscriptions across subscribing,
  cancelling (also of a cancelled subscription), charging, pausing and
  resuming, and that the subscriber index counts each subscriber once.
- `app/` is the Soroban contract: authorisation, ledger storage, token
  transfers and events around the library's decisions. `soroban-sdk`
  under `[dependencies]` serves `app/` only; `src/` names no outside crate.
- `tests/` runs the library on concrete values.
