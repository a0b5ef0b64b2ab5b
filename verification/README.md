# Zaps

Rules of a payment service, verified with Verus: the ledger contracts (escrow, reputation
score, upgradeable proxy) and the backend services (rate limiting, transaction screening,
transfers, withdrawals, caching).

- `src/contracts/`: contracts as plain state with methods. A method changes the state and
  appends to `Env::effects` what the host has to do for the call to stand:
  authorizations, token transfers, events, prolongations.
- `src/backend/`: services as decisions and steps. A step says what has to be done
  outside; the outcome of that leads to the next step.
- `tests/`: the library, run on concrete values.
- `app/`: ordinary Rust around the library: HTTP handlers, database, Redis, the sanctions
  provider, and the contracts' entry points on the ledger.

Public proof functions named `law_...` state what holds across calls: that the escrow
contract holds exactly what its open escrows are owed, that a rollback undoes an upgrade,
that decay never passes the neutral score, that no withdrawal is stored and no transfer
built before that very transaction (its user, where it goes, its amount) was screened and
not blocked, that a window allows exactly the first so many requests.

What is believed without proof is marked `external_body`, `assume_specification` or
`external_type_specification` and documented where it stands: `dashmap` for the windows
that are counted in the process, `uuid` for identifiers, the system clock, lower-casing
and `String::push`.
