# consensus-core

AptosBFT consensus components, written in Verus: the 2-chain safety rules,
vote aggregation, round and epoch management, the pacemaker, state sync,
reconfiguration, the processing pipeline, network message handling and the
DAG store and ordering rules. Every function in `src/` carries a contract.
Verus proves each of them, except four small wrappers of std time functions
(the clock and `Duration`), whose contracts are trusted.

Layout:

- `src/` — the verified library. Each module states its data as spec models
  (sequences, maps, views) and its operations as `requires` / `ensures` over
  them. The laws of the protocol (the voting, timeout and commit rules,
  double-vote protection, rounds that never decrease, the 1-chain round staying
  within the preferred round, vote deduplication and cleanup, what a DAG read
  gives back of a write) are public proof functions.
- `tests/` — executable tests of the library.
- `app/` — what the library leaves to ordinary Rust: floating-point interval
  and reputation strategies, async storage of the safety state, vote
  extensions, and serde forms of the library's types.

The components work on the mock block, vote and validator types of
`src/testing`, which stand for a blockchain's own types.
