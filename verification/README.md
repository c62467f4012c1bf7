# rusteze

The Rust-Eze planet of the `common_game` space simulation, with its decision
logic verified by Verus.

- `src/game.rs` — the planet state, generator and combinator of `common_game`
  as the library sees them: opaque values whose contents (cell charges, rocket,
  recipes) are named by spec functions, and the trusted items that call their
  methods.
- `src/messages.rs` — requests and replies between the planet, the
  orchestrator and the explorers, and the planet configuration.
- `src/rust_eze.rs` — the stateless Rust-Eze AI: charges cells with sunrays,
  generates every basic resource with the first charged cell, combines nothing,
  never deflects an asteroid.
- `src/stateful.rs` — the Rust-Eze AI with running and killed flags: stopped
  planets answer `Stopped`, killed ones answer nothing, and death is final.
- `app/lib.rs` — the `PlanetAI` implementations, message conversions, logging
  and planet construction with its channels.
