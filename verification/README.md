# runtime_ai

Verified decision logic of the Robots AI host that drives map characters in
fixed simulation steps.

- `src/handler_class.rs` — the concrete AI handler classes, the production host
  family that owns each (with the law that every class has exactly one), and the
  trigger class predicates.
- `src/rng.rs` — the gameplay random streams and the process LCG modulo gate,
  and the rule that previews never draw from an unanchored native session.
- `src/frame.rs` — the map frame's AI bookkeeping: magnetic target binding,
  gameplay draws, natural death requests, deferred-destroy flush, the preview
  live set and the per-instance gate and the per-class runtime setup of the class hosts.
- `src/instance.rs` — which keys each per-instance runtime table holds, the
  shared retire and dynamic-retention bookkeeping of the class hosts, and
  trigger lifecycles.
- `src/deferred_destroy.rs`, `src/creator.rs` — deferred destruction and the
  creator latch that blocks respawn after a natural death.
- `src/standard_monster.rs` — standard Monster configuration and the retained
  HitCheck lane.
- `src/sound.rs` — permanent sound registration by UID.
- `src/em07_piranha.rs` — PiranhaBot constants and flight-start draws.
- `src/behavior.rs` — small selector decisions.
- `src/collections.rs` — the `fxhash` collections and the contracts of the std
  methods called on them.

`app/` holds the float-side adapters (glam vectors and rotations).
