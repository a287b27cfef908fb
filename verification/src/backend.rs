//! Backend names, dispatch settings, the error type, and which backends this
//! build can serve.

use vstd::prelude::*;

verus! {

/// Acceleration backend requested by the caller.
#[derive(Clone, Copy, Debug, PartialEq, Eq, Structural)]
pub enum Backend {
    /// Always use the pure Rust CPU implementation.
    Cpu,
    /// Use CUDA when compiled and available.
    Cuda,
    /// Use an AVX-512 implementation when compiled and available.
    Avx512,
    /// Pick an available backend automatically.
    Auto,
}

/// Default minimum MSM size before downstream dispatchers consider acceleration.
pub const DEFAULT_MIN_MSM: usize = 4096;

/// Effective dispatch settings for downstream integration points.
#[derive(Clone, Copy, Debug, PartialEq, Eq, Structural)]
pub struct DispatchConfig {
    /// Backend that [`Backend::Auto`] dispatch prefers, when it is usable.
    pub backend: Backend,
    /// Minimum MSM size before trying an accelerated backend.
    pub min_msm_size: usize,
}

impl DispatchConfig {
    /// The settings used when nothing overrides them: CPU, threshold 4096.
    pub open spec fn spec_default() -> DispatchConfig {
        DispatchConfig { backend: Backend::Cpu, min_msm_size: DEFAULT_MIN_MSM }
    }
}

impl Default for DispatchConfig {
    fn default() -> (config: Self)
        ensures
            config == DispatchConfig::spec_default(),
    {
        DispatchConfig { backend: Backend::Cpu, min_msm_size: DEFAULT_MIN_MSM }
    }
}

/// Error returned by acceleration dispatch.
#[derive(Clone, Debug, PartialEq, Eq)]
pub enum AccelError {
    /// The requested curve is not supported by this facade.
    UnsupportedCurve,
    /// The requested backend is not compiled in or not supported yet.
    UnsupportedBackend,
    /// The requested backend is compiled in but unavailable at runtime.
    BackendUnavailable,
    /// Scalar and base slices must have the same length.
    LengthMismatch,
    /// The backend returned an invalid point.
    InvalidPoint,
    /// The backend returned an FFI-level error.
    FfiError(String),
}

impl AccelError {
    /// The human-readable description of each error.
    pub open spec fn spec_message(&self) -> Seq<char> {
        match self {
            AccelError::UnsupportedCurve => seq!['u','n','s','u','p','p','o','r','t','e','d',' ','c','u','r','v','e'],
            AccelError::UnsupportedBackend => seq!['u','n','s','u','p','p','o','r','t','e','d',' ','b','a','c','k','e','n','d'],
            AccelError::BackendUnavailable => seq!['b','a','c','k','e','n','d',' ','u','n','a','v','a','i','l','a','b','l','e'],
            AccelError::LengthMismatch => seq!['s','c','a','l','a','r',' ','a','n','d',' ','b','a','s','e',' ','l','e','n','g','t','h',' ','m','i','s','m','a','t','c','h'],
            AccelError::InvalidPoint => seq!['i','n','v','a','l','i','d',' ','p','o','i','n','t'],
            AccelError::FfiError(detail) => seq!['f','f','i',' ','e','r','r','o','r',':',' '] + detail@,
        }
    }

    /// Describes the error, as its `Display` form does.
    pub fn message(&self) -> (text: String)
        ensures
            text@ == self.spec_message(),
    {
        let text = match self {
            AccelError::UnsupportedCurve => "unsupported curve",
            AccelError::UnsupportedBackend => "unsupported backend",
            AccelError::BackendUnavailable => "backend unavailable",
            AccelError::LengthMismatch => "scalar and base length mismatch",
            AccelError::InvalidPoint => "invalid point",
            AccelError::FfiError(_) => "ffi error: ",
        };
        proof {
            reveal_strlit("unsupported curve");
            reveal_strlit("unsupported backend");
            reveal_strlit("backend unavailable");
            reveal_strlit("scalar and base length mismatch");
            reveal_strlit("invalid point");
            reveal_strlit("ffi error: ");
        }
        let mut out = String::from_str(text);
        if let AccelError::FfiError(detail) = self {
            out.append(detail.as_str());
        }
        out
    }
}

/// Whether this build carries a CUDA MSM adapter that reports a usable runtime.
/// No such adapter is compiled into this build.
pub open spec fn cuda_runtime_available() -> bool {
    false
}

/// Whether this build carries a real AVX-512 MSM implementation.
/// Only runtime detection exists so far, so the backend is never usable.
pub open spec fn avx512_backend_usable() -> bool {
    false
}

/// Which backends can serve an MSM in this build.
pub open spec fn spec_backend_available(backend: Backend) -> bool {
    match backend {
        Backend::Cpu | Backend::Auto => true,
        Backend::Cuda => cuda_runtime_available(),
        Backend::Avx512 => avx512_backend_usable(),
    }
}

fn cuda_available() -> (available: bool)
    ensures
        available == cuda_runtime_available(),
{
    false
}

fn avx512_available() -> (available: bool)
    ensures
        available == avx512_backend_usable(),
{
    false
}

/// Returns whether `backend` can be used in this build.
pub fn backend_available(backend: Backend) -> (available: bool)
    ensures
        available == spec_backend_available(backend),
{
    match backend {
        Backend::Cpu | Backend::Auto => true,
        Backend::Cuda => cuda_available(),
        Backend::Avx512 => avx512_available(),
    }
}

/// The preferred usable backend: CUDA, then AVX-512, then the CPU.
pub open spec fn spec_best_available_backend() -> Backend {
    if spec_backend_available(Backend::Cuda) {
        Backend::Cuda
    } else if spec_backend_available(Backend::Avx512) {
        Backend::Avx512
    } else {
        Backend::Cpu
    }
}

pub(crate) fn best_available_backend() -> (backend: Backend)
    ensures
        backend == spec_best_available_backend(),
        backend != Backend::Auto,
        spec_backend_available(backend),
{
    if backend_available(Backend::Cuda) {
        Backend::Cuda
    } else if backend_available(Backend::Avx512) {
        Backend::Avx512
    } else {
        Backend::Cpu
    }
}

/// The backend an MSM request runs on. An explicit backend stands, usable or
/// not, so a request never falls through to another backend. `Auto` picks an
/// available backend: the one the dispatch settings name when it is usable,
/// else the best usable one. In this build that is always the CPU.
pub open spec fn spec_resolve_backend(backend: Backend, config: DispatchConfig) -> Backend {
    match backend {
        Backend::Auto => match config.backend {
            Backend::Auto => spec_best_available_backend(),
            selected => if spec_backend_available(selected) {
                selected
            } else {
                spec_best_available_backend()
            },
        },
        selected => selected,
    }
}

pub(crate) fn resolve_backend(backend: Backend, config: DispatchConfig) -> (resolved: Backend)
    ensures
        resolved == spec_resolve_backend(backend, config),
        resolved != Backend::Auto,
{
    match backend {
        Backend::Auto => match config.backend {
            Backend::Auto => best_available_backend(),
            selected => if backend_available(selected) {
                selected
            } else {
                best_available_backend()
            },
        },
        selected => selected,
    }
}

/// In this build only the CPU serves MSMs: the CPU and `Auto` are usable,
/// CUDA and AVX-512 are not. So an explicit backend is kept as it is, usable
/// or not, and `Auto` resolves to the CPU whatever the dispatch settings name.
pub proof fn law_only_the_cpu_is_usable_in_this_build(backend: Backend, config: DispatchConfig)
    ensures
        spec_backend_available(Backend::Cpu),
        spec_backend_available(Backend::Auto),
        !spec_backend_available(Backend::Cuda),
        !spec_backend_available(Backend::Avx512),
        backend != Backend::Auto ==> spec_resolve_backend(backend, config) == backend,
        spec_resolve_backend(Backend::Auto, config) == Backend::Cpu,
{
}

} // verus!
