# agent_runtime

The decision logic of an agent runtime and its session drone, with
machine-checked contracts (Verus).

- `src/` — the library, every item verified:
  - `capability` — capability declarations, scope containment, the
    enforcer (tier gate, then grants) and spawn-time narrowing, with its
    laws (default deny, no widening, a grant keeps what it allowed).
  - `framework` — the framework model, the reference walker (gap events),
    the capability map and the load plan (audit records, events, verdict).
  - `hitl` — trigger policies, notifier registries and the prompt seam's
    values.
  - `budget` — the LRU cost cache, budget threshold firing (each threshold
    fires once per cap) and model-tier classification.
  - `runtime` — the drone channel's value types, the read-only query guard,
    plan/task and VDR projection decisions, snapshot hashing and recovery
    helpers, the command loop's alerts, the client's retry policy and
    answer matching, and migration selection.
  - `audit` — audit record constructors and the log's path.
  - `builder` — framework persistence helpers (frontmatter, companion
    merge and order), the tester's trace fold, capability summaries and
    validation reports.
- `tests/` — tests of the library on concrete values.
- `app/` — the drone binary and the I/O around the library: SQLite,
  the IPC socket, async plumbing, serde forms of the library's types,
  and the floating-point budget arithmetic.
