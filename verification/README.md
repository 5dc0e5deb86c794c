# dokimi_assert

Test assertions defined by a language-neutral standard, with every decision an assertion
makes stated as a contract and proved with Verus.

An assertion decides whether its property failed and, when it did, what it reports: a
record carrying the assertion's id, the caller's message and the values it names, or a
sentence. Those decisions live in `src/` and are verified: each function's `ensures`
says exactly when it reports and what the report holds.

## Layout

- `src/` — the verified library.
  - `matcher/` — one module per family of assertions: values, sizes, containment, text,
    errors, panics, ordering, behaviour and waiting. Each function takes what the caller's
    values and closures produced (a comparison, a rendering, a caught panic, a reading of
    the clock) and returns the record or sentence to report.
  - `failure.rs` — the record and how it renders; `seat.rs` — what a recording seat keeps
    and how a collecting seat writes its report.
  - `golden.rs` — scrubbing (timestamps, hashes, run ids and named JSON fields), the scan
    that reads one top-level field of a JSON document, and what a
    recorded file and a fresh output make of a comparison.
  - `bench.rs` — performance ceilings, the p99 and mean of a run, and what each crossed
    ceiling reports.
  - `clock.rs` — the platform clock and a clock a test moves.
  - `pattern.rs`, `words.rs` — the regular expressions of the `regex` crate and the text
    building blocks every report is written with.
- `app/` — the runtime around the library: the `Seat` trait and its three seats, the
  `check` and `soft` surfaces a test calls, catching panics, walking error chains,
  reading files and the environment, timing benchmarks, the two number assertions over
  floating point, and the assertions whose subject is a future.
- `tests/` — tests of the library on concrete values.
