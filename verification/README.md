# beejs

Runtime support library for the beejs JavaScript runtime, written in Verus:
Verus checks every function in `src/`, and proves each `requires`/`ensures`
contract there; a result that is a clock reading is left unstated.

## Layout

- `src/` — the verified library.
  - `error/` — error kinds, source locations and error context; retry
    policies and automatic recovery.
  - `fallback/` — fallback strategies per feature, their statistics and
    event history.
  - `event_loop/` — the event-loop state machine and the timer table.
  - `grammar/` — Server-Sent Events parsing and partial JSON repair.
  - `ffi.rs` — native type names, call shapes, result conversion and the
    table of open library handles.
  - `logging.rs`, `tracing.rs`, `metrics.rs` — log records, trace spans with
    header propagation, request metrics and their text export.
  - `security.rs`, `security_module.rs`, `compliance.rs`, `enterprise.rs` —
    security policies, the sandbox and key service set up together,
    compliance checks and reports.
  - `gitops.rs`, `cluster.rs`, `container.rs`, `tenancy.rs`, `team.rs` —
    configuration changes, clusters, containers, tenants and their quotas,
    team workload and knowledge tracking.
  - `holographic.rs`, `immersive.rs` — hologram storage and device
    configurations.
  - `assoc.rs`, `str_map.rs`, `text.rs`, `num_text.rs`, `time.rs` — maps as
    association lists, string maps, text and number helpers, clock and
    duration access.
- `app/` — the outer layer: threads, async waiting, clocks, floating-point
  figures, JSON encoding, terminal and file output, and native libraries.
- `tests/` — tests of the library.

Laws of the library (what a read gives back of a write, what an undo
restores, what every operation keeps) are stated as public proof functions
named `law_*` next to the code they speak of.
