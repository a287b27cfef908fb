# zcash-pasta-accel

An acceleration facade for Pasta-curve (Pallas/Vesta) multi-scalar
multiplication, written in Verus. The CPU path is the only backend this build
serves; CUDA and AVX-512 are selectable names that report themselves
unsupported, and never fall through to the CPU. `Backend::Auto` is the CPU,
whatever the dispatch settings name.

## Layout

- `src/` — the verified library.
  - `backend.rs`: backend names, dispatch settings, the error type, which
    backends are usable, and how `Auto` resolves.
  - `config.rs`: parsing `ZCASH_ACCEL` / `ZCASH_ACCEL_MIN_MSM` values (the
    threshold parser matches the standard library's `usize` parsing), and
    scoped dispatch overrides that are restored after use.
  - `schedule.rs`: `plan_msm_schedule`, which decides per request whether an
    MSM stays on the CPU, joins a batch, or is dispatched immediately, with its
    summary counters; the planning laws are proved here.
  - `stats.rs`: saturating dispatch counters.
  - `msm.rs`: Pallas/Vesta MSM dispatch and backend self-tests.
  - `ffi.rs`: checked little-endian limb encodings of field elements and
    points, with explicit point-at-infinity flags. The structs have the field
    order and types of their C counterparts but carry no `#[repr(C)]`, so
    their in-memory layout is the compiler's choice; an adapter that hands
    them to C code must copy them into `#[repr(C)]` structs of its own.
  - `curves.rs`: the Pasta types and the calls into `pasta_curves`.
  - `fuzz.rs`: input decoding and outcome acceptance of the MSM fuzz harness.
- `app/` — the per-thread state (`thread_local!` override and counters),
  environment reads, CPU feature detection, `Any`-based dispatch, the
  `thiserror` error type and the libFuzzer entry point, all delegating to the
  library.
- `tests/` — behaviour tests run against the real `pasta_curves`.

Thread state is explicit in the library: functions that read or update the
dispatch override or the counters take them as arguments.
