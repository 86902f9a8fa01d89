# v8_types_kernel_rust

A verified model of the core types of a JavaScript engine's runtime kernel:
tagged words and Smis, a Structure-of-Arrays heap, JavaScript objects and
their state machines, streaming jobs, a round-robin scheduler, a circuit
breaker, and the gluing of page-table mappings into one translation. Every
failure is a structured `FailureKind` diagnostic.

## Layout

- `src/` — the library, verified with Verus. Each module states its
  behaviour in `requires`/`ensures` contracts over spec functions, and its
  laws as public proof functions (`lemma_*`):
  - `branded` — tagging, Smi encoding, bit fields, weak references,
    pointer compression, alignment;
  - `heap` — the SoA heap, its well-formedness, read-after-write and
    isolation laws;
  - `objects` — object handles, the promise state machine, arrays, strings,
    hidden-class transitions;
  - `streaming`, `amb`, `compiler`, `gc`, `sandbox`, `wasm` — jobs,
    scheduler, semaphore, inline caches, collection, sandboxing;
  - `topos` — sheaf gluing of page-table levels, scheduler modal logic,
    paths between states;
  - `dffdf` — failures, their codes and rendered diagnostics, the circuit
    breaker; `text` — decimal/hex rendering and padding.
- `tests/` — the test suite, run against the compiled library.
- `app/` — what stays outside the verified library: floating-point
  heuristics and metrics, console output, and `Display` for the library's
  values.

Error rates and thresholds are exact fractions (`Ratio`), and collection
durations whole microseconds, so that the library holds no floating point.
