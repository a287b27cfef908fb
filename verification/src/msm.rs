//! Pallas and Vesta variable-base MSMs, dispatched by backend, and the
//! CPU-versus-backend self-tests.

use vstd::prelude::*;

use pasta_curves::{pallas, vesta};

use crate::backend::{
    backend_available, best_available_backend, resolve_backend, spec_backend_available,
    spec_best_available_backend, spec_resolve_backend, AccelError, Backend, DispatchConfig,
};
use crate::curves::{
    pallas_affine_times, pallas_identity_point, pallas_sum, vesta_affine_times,
    vesta_identity_point, vesta_sum, pallas_add, pallas_affine_mul, pallas_generator, pallas_identity, pallas_mul,
    pallas_points_equal, pallas_scalar_from_u64, pallas_scalar_neg, pallas_scalar_zero,
    pallas_to_affine, vesta_add, vesta_affine_mul, vesta_generator, vesta_identity, vesta_mul,
    vesta_points_equal, vesta_scalar_from_u64, vesta_scalar_neg, vesta_scalar_zero,
    vesta_to_affine,
};

verus! {

/// The error a backend that this build resolves to reports for an MSM, or
/// `None` when it computes one. Only the CPU computes MSMs here: CUDA is not
/// compiled in and AVX-512 has no MSM yet, so both report `UnsupportedBackend`.
pub open spec fn backend_msm_error(resolved: Backend) -> Option<AccelError> {
    match resolved {
        Backend::Cpu | Backend::Auto => None,
        Backend::Cuda => Some(AccelError::UnsupportedBackend),
        Backend::Avx512 => Some(AccelError::UnsupportedBackend),
    }
}

/// The error an MSM request gets, or `None` when it succeeds: mismatched
/// lengths are rejected first, whatever the backend; then the resolved
/// backend decides.
pub open spec fn msm_error(
    scalar_count: nat,
    base_count: nat,
    backend: Backend,
    config: DispatchConfig,
) -> Option<AccelError> {
    if scalar_count != base_count {
        Some(AccelError::LengthMismatch)
    } else {
        backend_msm_error(spec_resolve_backend(backend, config))
    }
}

/// `result` is what an MSM request with these lengths returns when the MSM of
/// its inputs is `value`: the error the request gets, or, when it gets none,
/// that MSM.
pub open spec fn msm_outcome<P>(
    scalar_count: nat,
    base_count: nat,
    backend: Backend,
    config: DispatchConfig,
    value: P,
    result: Result<P, AccelError>,
) -> bool {
    match msm_error(scalar_count, base_count, backend, config) {
        Some(error) => result == Err::<P, AccelError>(error),
        None => result == Ok::<P, AccelError>(value),
    }
}

/// The Pallas MSM of the first `n` pairs: the identity, plus `bases[i] *
/// scalars[i]` for each `i` below `n`, added in order.
pub open spec fn pallas_msm(
    scalars: Seq<pallas::Scalar>,
    bases: Seq<pallas::Affine>,
    n: int,
) -> pallas::Point
    decreases n,
{
    if n <= 0 {
        pallas_identity_point()
    } else {
        pallas_sum(pallas_msm(scalars, bases, n - 1), pallas_affine_times(bases[n - 1], scalars[n - 1]))
    }
}

/// The Vesta MSM of the first `n` pairs, as [`pallas_msm`] on Vesta.
pub open spec fn vesta_msm(
    scalars: Seq<vesta::Scalar>,
    bases: Seq<vesta::Affine>,
    n: int,
) -> vesta::Point
    decreases n,
{
    if n <= 0 {
        vesta_identity_point()
    } else {
        vesta_sum(vesta_msm(scalars, bases, n - 1), vesta_affine_times(bases[n - 1], scalars[n - 1]))
    }
}

fn cpu_msm_pallas(scalars: &[pallas::Scalar], bases: &[pallas::Affine]) -> (sum: pallas::Point)
    requires
        scalars@.len() == bases@.len(),
    ensures
        sum == pallas_msm(scalars@, bases@, scalars@.len() as int),
{
    let mut acc = pallas_identity();
    let mut i: usize = 0;
    while i < scalars.len()
        invariant
            scalars@.len() == bases@.len(),
            i <= scalars@.len(),
            acc == pallas_msm(scalars@, bases@, i as int),
        decreases scalars@.len() - i,
    {
        let term = pallas_affine_mul(&bases[i], &scalars[i]);
        acc = pallas_add(&acc, &term);
        i = i + 1;
    }
    acc
}

fn cpu_msm_vesta(scalars: &[vesta::Scalar], bases: &[vesta::Affine]) -> (sum: vesta::Point)
    requires
        scalars@.len() == bases@.len(),
    ensures
        sum == vesta_msm(scalars@, bases@, scalars@.len() as int),
{
    let mut acc = vesta_identity();
    let mut i: usize = 0;
    while i < scalars.len()
        invariant
            scalars@.len() == bases@.len(),
            i <= scalars@.len(),
            acc == vesta_msm(scalars@, bases@, i as int),
        decreases scalars@.len() - i,
    {
        let term = vesta_affine_mul(&bases[i], &scalars[i]);
        acc = vesta_add(&acc, &term);
        i = i + 1;
    }
    acc
}

fn cuda_msm_pallas(scalars: &[pallas::Scalar], bases: &[pallas::Affine]) -> (result: Result<
    pallas::Point,
    AccelError,
>)
    ensures
        result == Err::<pallas::Point, AccelError>(AccelError::UnsupportedBackend),
{
    Err(AccelError::UnsupportedBackend)
}

fn cuda_msm_vesta(scalars: &[vesta::Scalar], bases: &[vesta::Affine]) -> (result: Result<
    vesta::Point,
    AccelError,
>)
    ensures
        result == Err::<vesta::Point, AccelError>(AccelError::UnsupportedBackend),
{
    Err(AccelError::UnsupportedBackend)
}

fn avx512_msm_pallas(scalars: &[pallas::Scalar], bases: &[pallas::Affine]) -> (result: Result<
    pallas::Point,
    AccelError,
>)
    ensures
        result == Err::<pallas::Point, AccelError>(AccelError::UnsupportedBackend),
{
    Err(AccelError::UnsupportedBackend)
}

fn avx512_msm_vesta(scalars: &[vesta::Scalar], bases: &[vesta::Affine]) -> (result: Result<
    vesta::Point,
    AccelError,
>)
    ensures
        result == Err::<vesta::Point, AccelError>(AccelError::UnsupportedBackend),
{
    Err(AccelError::UnsupportedBackend)
}

/// Computes a Pallas variable-base MSM, the sum of `scalars[i] * bases[i]`.
///
/// `config` is the effective dispatch config (see [`crate::dispatch_config`]).
/// [`Backend::Auto`] picks an available backend; in this build that is the
/// CPU, whatever `config` names.
pub fn msm_pallas(
    scalars: &[pallas::Scalar],
    bases: &[pallas::Affine],
    backend: Backend,
    config: DispatchConfig,
) -> (result: Result<pallas::Point, AccelError>)
    ensures
        msm_outcome(
            scalars@.len(),
            bases@.len(),
            backend,
            config,
            pallas_msm(scalars@, bases@, scalars@.len() as int),
            result,
        ),
{
    if scalars.len() != bases.len() {
        return Err(AccelError::LengthMismatch);
    }
    match resolve_backend(backend, config) {
        Backend::Cpu | Backend::Auto => Ok(cpu_msm_pallas(scalars, bases)),
        Backend::Cuda => cuda_msm_pallas(scalars, bases),
        Backend::Avx512 => avx512_msm_pallas(scalars, bases),
    }
}

/// Computes a Vesta variable-base MSM, the sum of `scalars[i] * bases[i]`.
///
/// `config` is the effective dispatch config (see [`crate::dispatch_config`]).
/// [`Backend::Auto`] picks an available backend; in this build that is the
/// CPU, whatever `config` names.
pub fn msm_vesta(
    scalars: &[vesta::Scalar],
    bases: &[vesta::Affine],
    backend: Backend,
    config: DispatchConfig,
) -> (result: Result<vesta::Point, AccelError>)
    ensures
        msm_outcome(
            scalars@.len(),
            bases@.len(),
            backend,
            config,
            vesta_msm(scalars@, bases@, scalars@.len() as int),
            result,
        ),
{
    if scalars.len() != bases.len() {
        return Err(AccelError::LengthMismatch);
    }
    match resolve_backend(backend, config) {
        Backend::Cpu | Backend::Auto => Ok(cpu_msm_vesta(scalars, bases)),
        Backend::Cuda => cuda_msm_vesta(scalars, bases),
        Backend::Avx512 => avx512_msm_vesta(scalars, bases),
    }
}

fn pallas_backend_self_test(backend: Backend) -> (passed: bool)
    requires
        backend != Backend::Auto,
    ensures
        passed == (backend_msm_error(backend) is None),
{
    let generator = pallas_generator();
    let bases = [
        pallas_to_affine(&generator),
        pallas_to_affine(&pallas_mul(&generator, &pallas_scalar_from_u64(7))),
        pallas_to_affine(&pallas_identity()),
        pallas_to_affine(&pallas_mul(&generator, &pallas_scalar_from_u64(19))),
    ];
    let scalars = [
        pallas_scalar_from_u64(3),
        pallas_scalar_neg(&pallas_scalar_from_u64(11)),
        pallas_scalar_from_u64(23),
        pallas_scalar_zero(),
    ];
    let config = DispatchConfig::default();
    match msm_pallas(scalars.as_slice(), bases.as_slice(), Backend::Cpu, config) {
        Ok(expected) => match msm_pallas(scalars.as_slice(), bases.as_slice(), backend, config) {
            Ok(actual) => pallas_points_equal(&actual, &expected),
            Err(_) => false,
        },
        Err(_) => false,
    }
}

fn vesta_backend_self_test(backend: Backend) -> (passed: bool)
    requires
        backend != Backend::Auto,
    ensures
        passed == (backend_msm_error(backend) is None),
{
    let generator = vesta_generator();
    let bases = [
        vesta_to_affine(&generator),
        vesta_to_affine(&vesta_mul(&generator, &vesta_scalar_from_u64(7))),
        vesta_to_affine(&vesta_identity()),
        vesta_to_affine(&vesta_mul(&generator, &vesta_scalar_from_u64(19))),
    ];
    let scalars = [
        vesta_scalar_from_u64(3),
        vesta_scalar_neg(&vesta_scalar_from_u64(11)),
        vesta_scalar_from_u64(23),
        vesta_scalar_zero(),
    ];
    let config = DispatchConfig::default();
    match msm_vesta(scalars.as_slice(), bases.as_slice(), Backend::Cpu, config) {
        Ok(expected) => match msm_vesta(scalars.as_slice(), bases.as_slice(), backend, config) {
            Ok(actual) => vesta_points_equal(&actual, &expected),
            Err(_) => false,
        },
        Err(_) => false,
    }
}

/// The backend a self-test exercises: `Auto` stands for the best usable backend.
pub open spec fn self_test_target(backend: Backend) -> Backend {
    match backend {
        Backend::Auto => spec_best_available_backend(),
        selected => selected,
    }
}

/// Whether `backend` can serve MSMs: it is usable in this build and computes
/// an MSM rather than reporting an error.
pub open spec fn backend_serves_msm(backend: Backend) -> bool {
    spec_backend_available(backend) && backend_msm_error(backend) is None
}

/// Runs a deterministic CPU-vs-backend MSM self-test for `backend`.
///
/// [`Backend::Cpu`] and CPU-resolved [`Backend::Auto`] are allowed to pass
/// this generic self-test. The test computes a Pallas and a Vesta MSM on the
/// CPU and on the backend and compares them; a usable backend that computes
/// the same MSMs passes, and one that reports an error fails.
pub fn backend_self_test(backend: Backend) -> (passed: bool)
    ensures
        passed == backend_serves_msm(self_test_target(backend)),
{
    let backend = match backend {
        Backend::Auto => best_available_backend(),
        selected => selected,
    };

    if !backend_available(backend) {
        return false;
    }

    pallas_backend_self_test(backend) && vesta_backend_self_test(backend)
}

/// Whether some non-CPU backend that the request allows serves MSMs.
pub open spec fn accelerated_backend_passes(backend: Backend) -> bool {
    match backend {
        Backend::Cpu => false,
        Backend::Cuda | Backend::Avx512 => backend_serves_msm(backend),
        Backend::Auto => backend_serves_msm(Backend::Cuda) || backend_serves_msm(Backend::Avx512),
    }
}

/// Returns true only if a non-CPU backend is available and passes self-tests.
pub fn accelerated_backend_self_test(backend: Backend) -> (passed: bool)
    ensures
        passed == accelerated_backend_passes(backend),
{
    match backend {
        Backend::Cpu => false,
        Backend::Cuda | Backend::Avx512 => backend_self_test(backend),
        Backend::Auto => backend_self_test(Backend::Cuda) || backend_self_test(Backend::Avx512),
    }
}

/// Mismatched lengths are rejected with `LengthMismatch` whatever the backend
/// and dispatch settings.
pub proof fn law_length_mismatch_is_rejected_on_every_backend(
    scalar_count: nat,
    base_count: nat,
    backend: Backend,
    config: DispatchConfig,
)
    requires
        scalar_count != base_count,
    ensures
        msm_error(scalar_count, base_count, backend, config) == Some(AccelError::LengthMismatch),
{
}

/// In this build an `Auto` request behaves as a CPU request, whatever backend
/// the dispatch settings name: both compute the MSM.
pub proof fn law_auto_is_cpu(count: nat, config: DispatchConfig)
    ensures
        msm_error(count, count, Backend::Auto, config) == msm_error(
            count,
            count,
            Backend::Cpu,
            config,
        ),
        msm_error(count, count, Backend::Cpu, config) is None,
{
}

/// The MSM of no pairs is the identity, and each further pair adds its term.
pub proof fn law_msm_is_the_sum_of_terms(
    scalars: Seq<pallas::Scalar>,
    bases: Seq<pallas::Affine>,
    n: int,
)
    requires
        0 <= n,
    ensures
        pallas_msm(scalars, bases, 0) == pallas_identity_point(),
        pallas_msm(scalars, bases, n + 1) == pallas_sum(
            pallas_msm(scalars, bases, n),
            pallas_affine_times(bases[n], scalars[n]),
        ),
{
}

/// A request on a backend this build cannot serve gets `UnsupportedBackend`
/// rather than falling through to the CPU.
pub proof fn law_unsupported_backends_do_not_fall_through(
    count: nat,
    backend: Backend,
    config: DispatchConfig,
)
    requires
        backend == Backend::Cuda || backend == Backend::Avx512,
    ensures
        msm_error(count, count, backend, config) == Some(AccelError::UnsupportedBackend),
{
}

/// The CPU (and so `Auto`, in this build) passes the self-test, and no
/// accelerated backend does: none can serve MSMs in this build.
pub proof fn law_self_tests_pass_exactly_on_serving_backends()
    ensures
        backend_serves_msm(self_test_target(Backend::Cpu)),
        backend_serves_msm(self_test_target(Backend::Auto)),
        !backend_serves_msm(Backend::Cuda),
        !backend_serves_msm(Backend::Avx512),
        !accelerated_backend_passes(Backend::Auto),
{
}

} // verus!
