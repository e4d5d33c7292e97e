# soroban-wave-stake

An anti-ghosting commit-to-work staking protocol: a sponsor funds an issue,
a contributor locks a small stake to claim it exclusively, and the stake is
returned with the bounty on merge, slashed into the issue's reward pool when
the contributor misses the deadline (which opens a new sprint for the next
contributor), or split in half on a graceful forfeit.

- `src/` is the verified decision core, written in Verus:
  - `arith.rs`: saturating `i128` arithmetic on token amounts;
  - `issue.rs`: the stored issue, its invariant, its escrow, and the token
    movements and events that requests produce;
  - `error.rs`: the reasons for refusing a request and their messages;
  - `contract.rs`: the six requests, each a decision from the stored issue
    and the arguments to the issue to store and the transfer to perform;
  - `laws.rs`: properties that span the requests (well-formedness, escrow
    accounting over any run of requests, exclusivity, finality, single
    extension, rollover).
- `app/` is the Soroban contract that loads and stores issues, asks for
  authorization, moves tokens and publishes events around the core.
- `tests/` replays the contract's scenarios on an in-memory host and checks
  each decision on concrete issues.
