# ani_ligtas

AniLigtas holds a community relief pool for farming cooperatives: donors
deposit into the pool, registered farmers file crop-loss claims, and the
cooperative board approves (paying the farmer from the pool) or rejects them.

- `src/` is the verified core, written in Verus.
  - `model.rs`: the mathematical state of the contract and what each request
    does to it.
  - `contract.rs`: `AniLigtasContract`, the executable state and its entry
    points, each proved to follow the model.
  - `laws.rs`: properties across requests (consistency of farmers and
    claims, unique claim ids, no double filing, no partial payouts,
    reachable states, resolved claims stay
    resolved, pool accounting).
  - `table.rs`: a map keyed by byte strings; `records.rs`: records, errors
    and events; `bytes.rs`: byte-string helpers.
- `app/` is the Soroban contract around the core: storage, authorisation,
  token transfers and event publication.
- `tests/` exercise the core on concrete scenarios.
