# hostkit

The verified core of a native capability service: capability grants and
request dispatch, request-owned task bookkeeping, structured errors, and the
decisions of process execution (bounded output, spawn, cancellation, reaping).

- `src/` is the library, verified with Verus.
  - `runtime::error` — error categories and messages.
  - `runtime::router` — the granted capabilities and the dispatch decision.
  - `runtime::task` — a request's task registry and task-boundary errors.
  - `capabilities::sys` — process requests and results, bounded output, and
    the step functions that drive a child process from start to reaping.
- `app/` runs those decisions on Tokio: cancellation tokens, request contexts
  that spawn and track tasks, route handlers, and process execution.
- `tests/` exercises the library on concrete values.
