# superhero_universe

A superhero life simulation: powers and their costs, mastery and evolution, personas
and suspicion, civilian careers and daily life, cases, agents, origins, cosmic omni
powers and the endgame, with the story content that drives them.

- `src/` is the simulation's rules as a library verified with Verus. Each public
  function states what it computes in its contract. Where a result depends on what a
  `PowerRepository` answers (a trait users implement, with no contract of its own), the
  contract states it up to those answers: a spec function such as `mutant_draws` or
  `alien_draws` fixes what is drawn from any candidate lists, and the functions that take
  the answers as arguments (`plan_mutant_draws`, `choose_expression_powers`,
  `tier_from_tag_lists`, ...) have exact contracts. The laws of the simulation (ids never
  reused, mastery never raising costs, claims never stolen, the dead staying dead,
  storylets not repeating, lookups ending, ...) are proof functions named `law_*`.
- `tests/` runs the library on concrete cases.
- `app/` is the command-line program around it: it reads the JSON content files and the
  SQLite content and name databases, writes and reads save files as JSON (the records
  and the restore decisions are the library's `serialization` module), keeps the
  floating-point pressure gauges and money scaling, and runs the command loop.
