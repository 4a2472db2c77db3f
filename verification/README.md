# nexus_rt

Runtime primitives for single-threaded, event-driven systems, written in
Verus: handlers run over a shared store of resources (the `World`), and
every step, pipeline, DAG, scheduler pass and dispatcher carries a contract
that Verus checks.

## Layout

- `src/world.rs` — registry, world builder and world: resources keyed by
  `u64`, dense ids, per-resource change stamps and the global sequence.
- `src/step.rs`, `src/handler.rs` — the step and handler traits and their
  leaf forms (pure, resource read, resource write, world read, scan, named).
  Leaves built from closures carry contracts over `call_requires` /
  `call_ensures`; chains whose results are proved end to end use the named
  forms (`named`, `named_res`, `named_res_mut`, `named_local`,
  `named_ctx_res_mut`, ...), whose functions state their results as spec
  functions.
- `src/pipeline.rs`, `src/dag.rs` — typed per-event chains and data-flow
  graphs with `Option`/`Result` flow control, forks and merges, batch runs.
- `src/system.rs`, `src/topo.rs`, `src/scheduler.rs`, `src/app.rs` —
  reconciliation systems, their topological order, and the propagating
  scheduler pass.
- `src/combinator.rs`, `src/adapt.rs`, `src/callback.rs` — fan-out,
  broadcast, event adapters and context-owning handlers.
- `src/clock.rs` — wall/test/replay clocks; `src/mio.rs` — readiness
  dispatch over `mio` with slab-allocated tokens; `src/testing.rs` — a test
  harness; `src/event.rs`, `src/resource.rs`, `src/shutdown.rs`,
  `src/components.rs`, `src/drivers.rs` — smaller building blocks.
- `src/codegen_audit/` — fixed pipelines and DAGs over a seven-resource
  world, each with its exact result stated.
- `app/` — the event loop's I/O edge: waiting on `mio`, OS signals, panic
  containment and error display.
