# DevStudio

A multi-agent software workshop: AI agents take development tasks from a
queue, ask free LLM providers (with failover) for code and reviews, and run
commands in sandboxes; a small HTTP server exposes it, with JWT tokens and a
per-address rate limit. Four runtime plugins (world, agents, game master,
economy) compute voxel coordinates, task claims and consensus, interventions
and token budgets.

## Layout

- `src/` — the verified library (Verus). The system's decisions live here
  with their contracts: the plugins' rules, the rate limiter (a sliding
  window over a `DashMap`), the in-memory task queue (highest priority
  first, with its retry limit) and the persistent queue's retry step, the
  LLM provider catalogue, model choice and failover steps, the agents'
  prompts, outputs and reviews, sandbox containers (isolation settings),
  records, names and results, the dispatch loop's back-off, claims and run
  records, the settings and their defaults, HS256 token issuing and
  checking, error statuses and metric samples. Laws that span several
  calls are public proof functions named `law_*`.
- `tests/` — tests of the library on concrete values.
- `app/` — the server around it: axum routes and middleware, reading the
  environment, reqwest calls to the providers, Redis and Docker clients,
  process execution, the dispatch loop and the plugins' C interface. It
  hands the library plain values and acts on what it returns; it also
  reads the agents' temperature and judges build coverage, both
  floating-point.
