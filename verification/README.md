# bua

A capability-secure, deterministic runtime for AI agents, with its core
verified by Verus.

- `src/` — the verified library: capability sets and their checks,
  capability contexts and their audit log, execution traces, the agent
  lifecycle, snapshot framing with checksums and layered strata, deterministic
  replay and I/O interception, the deterministic clock, the module graph,
  resolver and loader cache, timers of the event loop, promise bookkeeping,
  metrics counters, and the command line's capability builder. Each public
  function states its result in `ensures`; the properties that span several
  calls stand as `law_*` proof functions.
- `tests/` — tests on concrete values, run against the compiled library.
- `app/` — the `bua` command line and everything that does I/O or runs
  tasks: files, the network, threads, the Tokio event loop and agent tasks,
  JSON encoding of snapshot strata and traces, and the JavaScript engine.
