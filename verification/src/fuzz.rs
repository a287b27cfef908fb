//! The MSM fuzz harness: how a fuzz input is decoded into an MSM request, and
//! which outcomes of that request are acceptable.

use vstd::prelude::*;

use pasta_curves::{pallas, vesta};

use crate::backend::{
    backend_available, spec_backend_available, spec_resolve_backend, AccelError, Backend,
    DispatchConfig,
};
use crate::config::with_dispatch_config;
use crate::curves::{
    pallas_add, pallas_affine_mul, pallas_generator, pallas_identity, pallas_mul,
    pallas_points_equal, pallas_scalar_from_u64, pallas_scalar_neg, pallas_to_affine, vesta_add,
    vesta_affine_mul, vesta_generator, vesta_identity, vesta_mul, vesta_points_equal,
    vesta_scalar_from_u64, vesta_scalar_neg, vesta_to_affine,
};
use crate::msm::{msm_error, msm_outcome, msm_pallas, msm_vesta, pallas_msm, vesta_msm};

verus! {

/// Most point/scalar pairs one fuzz input is decoded into.
pub const MAX_POINTS: usize = 128;

/// What the first byte of a fuzz input selects.
#[derive(Clone, Copy, Debug, PartialEq, Eq, Structural)]
pub struct FuzzOptions {
    /// The backend the MSM is requested on.
    pub backend: Backend,
    /// Whether the last base is dropped, to exercise the length check.
    pub truncate_bases: bool,
    /// Whether the MSM is on Vesta rather than Pallas.
    pub vesta: bool,
}

/// Bits 1 and 2 of the options byte select the backend, bit 0 truncation and
/// bit 3 the curve.
pub open spec fn spec_fuzz_options(options: u8) -> FuzzOptions {
    FuzzOptions {
        backend: match (options / 2) % 4 {
            0 => Backend::Cpu,
            1 => Backend::Auto,
            2 => Backend::Cuda,
            _ => Backend::Avx512,
        },
        truncate_bases: options % 2 == 1,
        vesta: (options / 8) % 2 == 1,
    }
}

/// Decodes the options byte of a fuzz input.
pub fn decode_fuzz_options(options: u8) -> (decoded: FuzzOptions)
    ensures
        decoded == spec_fuzz_options(options),
{
    let selector = (options >> 1) & 0b11;
    assert(selector == (options / 2) % 4) by (bit_vector)
        requires
            selector == (options >> 1) & 0b11,
    ;
    assert((options & 0b1 == 1) == (options % 2 == 1)) by (bit_vector);
    assert((options & 0b1000 != 0) == ((options / 8) % 2 == 1)) by (bit_vector);
    let backend = if selector == 0 {
        Backend::Cpu
    } else if selector == 1 {
        Backend::Auto
    } else if selector == 2 {
        Backend::Cuda
    } else {
        Backend::Avx512
    };
    FuzzOptions { backend, truncate_bases: options & 0b1 == 1, vesta: options & 0b1000 != 0 }
}

/// Reads a little-endian `u64` from 8 bytes.
pub fn u64_from_le(bytes: &[u8]) -> (value: u64)
    requires
        bytes@.len() == 8,
    ensures
        vstd::bytes::spec_u64_to_le_bytes(value) == bytes@,
        value == vstd::bytes::spec_u64_from_le_bytes(bytes@),
{
    proof {
        vstd::bytes::lemma_auto_spec_u64_to_from_le_bytes();
    }
    vstd::bytes::u64_from_le_bytes(bytes)
}

/// The `(scalar seed, base seed)` pairs of a fuzz input: one pair per whole
/// 16-byte chunk, at most [`MAX_POINTS`] of them, each seed read little-endian.
pub open spec fn spec_seed_pairs(data: Seq<u8>) -> Seq<(u64, u64)> {
    let count = if data.len() / 16 < MAX_POINTS {
        data.len() / 16
    } else {
        MAX_POINTS as nat
    };
    Seq::new(
        count,
        |i: int|
            (
                vstd::bytes::spec_u64_from_le_bytes(data.subrange(16 * i, 16 * i + 8)),
                vstd::bytes::spec_u64_from_le_bytes(data.subrange(16 * i + 8, 16 * i + 16)),
            ),
    )
}

/// Splits a fuzz input into `(scalar seed, base seed)` pairs.
pub fn seed_pairs(data: &[u8]) -> (pairs: Vec<(u64, u64)>)
    ensures
        pairs@ == spec_seed_pairs(data@),
{
    let count = if data.len() / 16 < MAX_POINTS {
        data.len() / 16
    } else {
        MAX_POINTS
    };
    let mut pairs: Vec<(u64, u64)> = Vec::new();
    let mut i: usize = 0;
    while i < count
        invariant
            count == spec_seed_pairs(data@).len(),
            count * 16 <= data@.len(),
            i <= count,
            pairs@ =~= spec_seed_pairs(data@).take(i as int),
        decreases count - i,
    {
        let scalar = u64_from_le(vstd::slice::slice_subrange(data, 16 * i, 16 * i + 8));
        let base = u64_from_le(vstd::slice::slice_subrange(data, 16 * i + 8, 16 * i + 16));
        pairs.push((scalar, base));
        i = i + 1;
    }
    pairs
}

/// The scoped dispatch override under which the fuzzed MSM runs: an `Auto`
/// request runs with the CPU installed (threshold 0), so that `Auto` resolves
/// to the CPU; any other request runs under the override already in force.
pub open spec fn fuzz_override(backend: Backend, scoped: Option<DispatchConfig>) -> Option<
    DispatchConfig,
> {
    if backend == Backend::Auto {
        Some(DispatchConfig { backend: Backend::Cpu, min_msm_size: 0 })
    } else {
        scoped
    }
}

/// Runs `f` under the override [`fuzz_override`] gives; the override in force
/// before is in force again afterwards.
pub fn with_cpu_resolved_auto<T, F: FnOnce(Option<DispatchConfig>) -> T>(
    scoped: &mut Option<DispatchConfig>,
    backend: Backend,
    f: F,
) -> (result: T)
    requires
        f.requires((fuzz_override(backend, *old(scoped)),)),
    ensures
        *final(scoped) == *old(scoped),
        f.ensures((fuzz_override(backend, *old(scoped)),), result),
{
    if backend == Backend::Auto {
        with_dispatch_config(scoped, DispatchConfig { backend: Backend::Cpu, min_msm_size: 0 }, f)
    } else {
        f(*scoped)
    }
}

/// Which outcomes the harness accepts: a computed MSM must match the CPU
/// oracle; a backend that is not usable may say so; nothing else is accepted.
pub open spec fn spec_backend_result_acceptable(
    backend: Backend,
    result: Result<bool, AccelError>,
) -> bool {
    match result {
        Ok(matches_cpu) => matches_cpu,
        Err(AccelError::UnsupportedBackend) | Err(AccelError::BackendUnavailable) => backend
            != Backend::Cpu && !spec_backend_available(backend),
        Err(_) => false,
    }
}

/// Whether the harness accepts `result` for a request on `backend`.
pub fn backend_result_acceptable(backend: Backend, result: &Result<bool, AccelError>) -> (acceptable:
    bool)
    ensures
        acceptable == spec_backend_result_acceptable(backend, *result),
{
    match result {
        Ok(matches_cpu) => *matches_cpu,
        Err(AccelError::UnsupportedBackend) | Err(AccelError::BackendUnavailable) => backend
            != Backend::Cpu && !backend_available(backend),
        Err(_) => false,
    }
}

/// The effective config for an override: the override if any, else `env`.
pub open spec fn effective_config(scoped: Option<DispatchConfig>, env: DispatchConfig) -> DispatchConfig {
    match scoped {
        Some(config) => config,
        None => env,
    }
}

/// The lengths of the MSM request a fuzz input decodes to: one scalar per
/// seed pair, and as many bases, less the last one when `truncate_bases`
/// drops it.
pub open spec fn fuzz_request_lengths(data: Seq<u8>, truncate_bases: bool) -> (nat, nat) {
    let count = spec_seed_pairs(data).len();
    (
        count,
        if truncate_bases && count > 0 {
            (count - 1) as nat
        } else {
            count
        },
    )
}

/// The outcome the harness judges for a fuzz case: the error the decoded MSM
/// request gets, or, when it computes a point, whether that point equals the
/// directly computed sum, which it does, both being the same in-order sum.
pub open spec fn fuzz_outcome(
    data: Seq<u8>,
    backend: Backend,
    truncate_bases: bool,
    scoped: Option<DispatchConfig>,
    env: DispatchConfig,
) -> Result<bool, AccelError> {
    let (scalar_count, base_count) = fuzz_request_lengths(data, truncate_bases);
    match msm_error(
        scalar_count,
        base_count,
        backend,
        effective_config(fuzz_override(backend, scoped), env),
    ) {
        Some(error) => Err(error),
        None => Ok(true),
    }
}

/// Whether the harness accepts a fuzz case: a request whose lengths differ
/// must be refused with `LengthMismatch`; any other request's outcome must be
/// acceptable for its backend.
pub open spec fn fuzz_case_accepted(
    data: Seq<u8>,
    backend: Backend,
    truncate_bases: bool,
    scoped: Option<DispatchConfig>,
    env: DispatchConfig,
) -> bool {
    let (scalar_count, base_count) = fuzz_request_lengths(data, truncate_bases);
    let outcome = fuzz_outcome(data, backend, truncate_bases, scoped, env);
    if scalar_count != base_count {
        outcome == Err::<bool, AccelError>(AccelError::LengthMismatch)
    } else {
        spec_backend_result_acceptable(backend, outcome)
    }
}

fn scalar_from_seed_pallas(seed: u64) -> pallas::Scalar {
    if seed % 2 == 0 {
        pallas_scalar_from_u64(seed)
    } else {
        pallas_scalar_neg(&pallas_scalar_from_u64(seed))
    }
}

fn scalar_from_seed_vesta(seed: u64) -> vesta::Scalar {
    if seed % 2 == 0 {
        vesta_scalar_from_u64(seed)
    } else {
        vesta_scalar_neg(&vesta_scalar_from_u64(seed))
    }
}

fn base_from_seed_pallas(generator: &pallas::Point, seed: u64) -> pallas::Affine {
    if seed % 2 == 0 {
        pallas_to_affine(&pallas_identity())
    } else {
        pallas_to_affine(&pallas_mul(generator, &pallas_scalar_from_u64(seed)))
    }
}

fn base_from_seed_vesta(generator: &vesta::Point, seed: u64) -> vesta::Affine {
    if seed % 2 == 0 {
        vesta_to_affine(&vesta_identity())
    } else {
        vesta_to_affine(&vesta_mul(generator, &vesta_scalar_from_u64(seed)))
    }
}

fn expected_pallas(scalars: &[pallas::Scalar], bases: &[pallas::Affine]) -> (sum: pallas::Point)
    ensures
        sum == pallas_msm(
            scalars@,
            bases@,
            if scalars@.len() < bases@.len() {
                scalars@.len() as int
            } else {
                bases@.len() as int
            },
        ),
{
    let n = if scalars.len() < bases.len() {
        scalars.len()
    } else {
        bases.len()
    };
    let mut acc = pallas_identity();
    let mut i: usize = 0;
    while i < n
        invariant
            n <= scalars@.len(),
            n <= bases@.len(),
            i <= n,
            acc == pallas_msm(scalars@, bases@, i as int),
        decreases n - i,
    {
        acc = pallas_add(&acc, &pallas_affine_mul(&bases[i], &scalars[i]));
        i = i + 1;
    }
    acc
}

fn expected_vesta(scalars: &[vesta::Scalar], bases: &[vesta::Affine]) -> (sum: vesta::Point)
    ensures
        sum == vesta_msm(
            scalars@,
            bases@,
            if scalars@.len() < bases@.len() {
                scalars@.len() as int
            } else {
                bases@.len() as int
            },
        ),
{
    let n = if scalars.len() < bases.len() {
        scalars.len()
    } else {
        bases.len()
    };
    let mut acc = vesta_identity();
    let mut i: usize = 0;
    while i < n
        invariant
            n <= scalars@.len(),
            n <= bases@.len(),
            i <= n,
            acc == vesta_msm(scalars@, bases@, i as int),
        decreases n - i,
    {
        acc = vesta_add(&acc, &vesta_affine_mul(&bases[i], &scalars[i]));
        i = i + 1;
    }
    acc
}

/// Runs one fuzz case on Pallas: builds the MSM from the seeds, runs it on
/// `backend` (an `Auto` request with the CPU installed), and checks the
/// outcome against the direct sum. Returns whether the case passed, which in
/// this build it always does: a truncated input is rejected for its lengths, a
/// backend that cannot serve MSMs says so, and a computed MSM equals the sum.
pub fn fuzz_pallas(
    data: &[u8],
    backend: Backend,
    truncate_bases: bool,
    scoped: &mut Option<DispatchConfig>,
    env: DispatchConfig,
) -> (passed: bool)
    ensures
        *final(scoped) == *old(scoped),
        passed == fuzz_case_accepted(data@, backend, truncate_bases, *old(scoped), env),
        passed,
{
    let pairs = seed_pairs(data);
    let generator = pallas_generator();
    let mut scalars: Vec<pallas::Scalar> = Vec::new();
    let mut bases: Vec<pallas::Affine> = Vec::new();
    let mut i: usize = 0;
    while i < pairs.len()
        invariant
            i <= pairs@.len(),
            scalars@.len() == i,
            bases@.len() == i,
        decreases pairs@.len() - i,
    {
        let (scalar, base) = pairs[i];
        scalars.push(scalar_from_seed_pallas(scalar));
        bases.push(base_from_seed_pallas(&generator, base));
        i = i + 1;
    }
    if truncate_bases && bases.len() > 0 {
        bases.pop();
    }
    let scalars_ref = scalars.as_slice();
    let bases_ref = bases.as_slice();
    let run = |scoped_now: Option<DispatchConfig>| -> (r: Result<pallas::Point, AccelError>)
        ensures
            msm_outcome(
                scalars_ref@.len(),
                bases_ref@.len(),
                backend,
                effective_config(scoped_now, env),
                pallas_msm(scalars_ref@, bases_ref@, scalars_ref@.len() as int),
                r,
            ),
    {
        let config = match scoped_now {
            Some(config) => config,
            None => env,
        };
        msm_pallas(scalars_ref, bases_ref, backend, config)
    };
    let result = with_cpu_resolved_auto(scoped, backend, run);
    if scalars.len() != bases.len() {
        return match result {
            Err(AccelError::LengthMismatch) => true,
            _ => false,
        };
    }
    let expected = expected_pallas(scalars_ref, bases_ref);
    let outcome = match result {
        Ok(point) => Ok(pallas_points_equal(&point, &expected)),
        Err(error) => Err(error),
    };
    backend_result_acceptable(backend, &outcome)
}

/// Runs one fuzz case on Vesta, as [`fuzz_pallas`] does on Pallas.
pub fn fuzz_vesta(
    data: &[u8],
    backend: Backend,
    truncate_bases: bool,
    scoped: &mut Option<DispatchConfig>,
    env: DispatchConfig,
) -> (passed: bool)
    ensures
        *final(scoped) == *old(scoped),
        passed == fuzz_case_accepted(data@, backend, truncate_bases, *old(scoped), env),
        passed,
{
    let pairs = seed_pairs(data);
    let generator = vesta_generator();
    let mut scalars: Vec<vesta::Scalar> = Vec::new();
    let mut bases: Vec<vesta::Affine> = Vec::new();
    let mut i: usize = 0;
    while i < pairs.len()
        invariant
            i <= pairs@.len(),
            scalars@.len() == i,
            bases@.len() == i,
        decreases pairs@.len() - i,
    {
        let (scalar, base) = pairs[i];
        scalars.push(scalar_from_seed_vesta(scalar));
        bases.push(base_from_seed_vesta(&generator, base));
        i = i + 1;
    }
    if truncate_bases && bases.len() > 0 {
        bases.pop();
    }
    let scalars_ref = scalars.as_slice();
    let bases_ref = bases.as_slice();
    let run = |scoped_now: Option<DispatchConfig>| -> (r: Result<vesta::Point, AccelError>)
        ensures
            msm_outcome(
                scalars_ref@.len(),
                bases_ref@.len(),
                backend,
                effective_config(scoped_now, env),
                vesta_msm(scalars_ref@, bases_ref@, scalars_ref@.len() as int),
                r,
            ),
    {
        let config = match scoped_now {
            Some(config) => config,
            None => env,
        };
        msm_vesta(scalars_ref, bases_ref, backend, config)
    };
    let result = with_cpu_resolved_auto(scoped, backend, run);
    if scalars.len() != bases.len() {
        return match result {
            Err(AccelError::LengthMismatch) => true,
            _ => false,
        };
    }
    let expected = expected_vesta(scalars_ref, bases_ref);
    let outcome = match result {
        Ok(point) => Ok(vesta_points_equal(&point, &expected)),
        Err(error) => Err(error),
    };
    backend_result_acceptable(backend, &outcome)
}

/// Only the low four bits of the options byte matter: bit 0 drops the last
/// base, bits 1 and 2 pick the CPU, `Auto`, CUDA or AVX-512 in that order,
/// and bit 3 picks Vesta over Pallas.
pub proof fn law_fuzz_options_read_the_low_four_bits(options: u8, truncate: u8, selector: u8, vesta: u8)
    requires
        truncate < 2,
        selector < 4,
        vesta < 2,
    ensures
        spec_fuzz_options(options) == spec_fuzz_options(options % 16),
        ({
            let decoded = spec_fuzz_options((truncate + 2 * selector + 8 * vesta) as u8);
            &&& decoded.truncate_bases == (truncate == 1)
            &&& decoded.vesta == (vesta == 1)
            &&& selector == 0 ==> decoded.backend == Backend::Cpu
            &&& selector == 1 ==> decoded.backend == Backend::Auto
            &&& selector == 2 ==> decoded.backend == Backend::Cuda
            &&& selector == 3 ==> decoded.backend == Backend::Avx512
        }),
{
    let low = options % 16;
    assert((options / 2) % 4 == (low / 2) % 4 && options % 2 == low % 2 && (options / 8) % 2 == (
    low / 8) % 2) by (nonlinear_arith)
        requires
            low == options % 16,
    ;
    let byte = (truncate + 2 * selector + 8 * vesta) as u8;
    assert(byte % 2 == truncate && (byte / 2) % 4 == selector && (byte / 8) % 2 == vesta)
        by (nonlinear_arith)
        requires
            byte == truncate + 2 * selector + 8 * vesta,
            truncate < 2,
            selector < 4,
            vesta < 2,
    ;
}

} // verus!
