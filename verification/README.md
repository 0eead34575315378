# gen2_engine

The generation 2 rules of a Pokémon singles battle engine, verified with Verus.

- `src/state.rs`, `src/choices.rs`, `src/volatile.rs`, `src/instruction.rs`: the battle
  state (pokemon, sides, the whole state), move identifiers, the volatile-status bitset
  and the instructions that record changes to a state, with what applying and undoing
  them means.
- `src/gen2/state.rs`: which choices each side has, boosted stats, toxic reset and
  volatile-status removal on a switch, and the flags for optional mechanics; each with a
  contract over spec functions of the same file.
- `src/gen2/laws.rs`: properties proved for every state (choice lists are well formed and
  offered switches are legal, root choices are never empty, encore locks the last move,
  switching out and toxic reset are idempotent and record exactly the change they make, ...).
- `src/gen_dispatch/dispatch.rs`: entry points generic over the generation.
