# copy_daemon

The decision core of a copy-trading daemon, written in Verus. The daemon follows
the trades of leaders and repeats them on local accounts under tight caps. What
is decided here is proved; what talks to the outside is not.

## Layout

- `src/` holds the library. Every rule of the daemon is a function with a
  contract: which plans are sent, which are held back and why, what is saved in
  the ledger, when a run stops, and what its report says.
- `tests/` runs the library on concrete values.
- `app/` is the program around the library: the command line, the line to the
  trading desk, files, and the loops that wait. What is sent, closed again,
  saved or reported, and when a loop ends, it has from the library.

## Conventions

- Dollars, sizes, prices and basis points are whole billionths in an `i64`
  (`decimal::Fixed`). A single amount ends at about nine billion dollars; `app/`
  refuses a number beyond that.
- Sums of amounts are whole billionths in an `i128` (`decimal::Total`), and a cap
  is always held against the sum itself. Running totals stop at `decimal::WIDE_MAX`,
  which is far above every amount and so above every cap.
- Fees and margins are whole trillionths of a dollar, in which their ratios to a
  notional are exact.
- Texts from the exchange are read digit by digit, up to `decimal::WIDE_MAX` units.
  An exposure, or the size that tells whether a position is flat, is rounded up to
  its unit, because it is held against an upper bound; what an account can withdraw
  is cut to a trillionth of a dollar, because it has to reach a lower bound. Either
  way a comparison with a whole bound in that range comes out as for the text's own
  number (`decimal::whole_bounds_survive_rounding`). The notional of a position is
  cut to a billionth, but never to zero, and to the largest amount.
- A word for infinity is read as a number past every amount, except where only a
  finite figure counts. Any other text that is no decimal, `nan` among them, is
  unreadable.
- The clock, the answers of the risk gateway, the market quotes, the account
  states and the stored files are arguments. A contract holds for every value of
  them.
- A run is a list of checks, each with a name, a verdict and a line of detail.
  The contracts fix all three.
- `markets` in the options of a supervised window is the resolved market scope;
  `market::copy_daemon_normalize_market_scope` gives it from what an operator
  listed.
- Where the order of a collection is open, the library picks one: merged ledgers
  are ordered by the identity of their entries.

## Where to look

- `plan`, `partition`, `margin`, `follow`, `contract`, `select`: from candidate
  plans to what is sent.
- `dispatch`, `evidence`, `submit`: sending, and proving what was sent.
- `ledger`, `merge`, `recovery`, `reconcile`: what is known of positions.
- `shadow`, `watch`, `canary`, `trial`, `acceptance`, `supervisor`, `window`,
  `soak`: the runs.
- Public proof functions state what holds across functions, such as that no plan
  is sent twice, that reductions are conserved, and that a run that went well
  kept to its caps.
