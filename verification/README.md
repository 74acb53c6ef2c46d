# OnSocial relayer

A NEAR contract that relays meta-transactions for a social application: it
checks signed delegate actions, asks an auth contract and a signing (MPC)
contract before acting, sponsors new accounts, bridges tokens to other
chains and keeps its configuration under a single manager.

The decisions of the contract live in the library under `src/`, written in
Verus with their contracts proved:

- `state`, `strmap`: the relayer's state and the string-keyed maps it keeps.
- `admin`: configuration changes, each the manager's alone.
- `relay`: signature checks, the relay chains and the actions a relayed
  transaction carries out.
- `contract`: callbacks, storage charges, upgrades.
- `sponsor`: account sponsoring and the Borsh arguments it reads.
- `balance`: deposits into the gas pool and the offloading of what exceeds
  the caps. Relaying pays 0.029 NEAR per meta-transaction from the gas pool
  (twice that with a fee action); sponsoring an account pays the sponsor
  amount.
- `migration`: reading and writing the stored state layouts and upgrading
  them; only the manager (or the contract itself, after an update) migrates,
  and only while the relayer is paused.
- `borsh`, `crypto`, `text`, `signing_tool`: byte formats, hashing and
  signatures, text encodings.
- `plan`, `events`, `errors`: the promise chains, events and errors the
  library hands back.
- `laws`: properties spanning several operations.

The library never touches the runtime: it takes what the runtime says as
arguments (`state::Context`) and returns the new state, the events to log and
the promise chain to schedule (`plan::PromisePlan`). `app/` is the NEAR
contract around it (entry points, storage, logging, scheduling) and the
command-line signing tool; `tests/` exercises the library.
