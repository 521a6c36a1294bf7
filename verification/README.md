# lojix

Deploy orchestration for cluster hosts and user environments: requests are
admitted, resolved to a source revision, evaluated, built, copied, activated and
recorded, and each step leaves state from which a restarted daemon goes on.

The state is a value that the library steps from one commit to the next, and `app/`
keeps it in memory. Writing it to disk is a storage engine's work and is not part of
this crate: a daemon that is to survive its process has to bring one.

- `src/` is the library, verified with Verus.
  - `text`, `paths` — text and paths as sequences of characters.
  - `runtime_model`, `runtime_flow` — the nouns of requests, records and effects.
  - `schema_runtime/` — the deploy engine: request rules (`requests`,
    `flake_policy`, `store_path`, `ssh_target`), commands (`nix_command`, `shell`,
    `activation`, `materialization`, `effects`), pipelines (`pipeline`,
    `test_runs`), durable state (`store`, `writes`, `queries`, `resume`), decisions
    (`deploy_decisions`, `decisions`, `runner`) and what holds of them as a whole
    (`laws`, `invariants`).
  - `generated`, `runtime/` — the planes of the daemon and the conversation that
    leads a request from plane to plane.
  - `socket` — the daemon's socket and its streams of observations.
- `tests/` runs the library on concrete values.
- `app/` is the daemon around the library: processes, files, actors and sockets.
