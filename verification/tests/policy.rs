use pasta_curves::{group::Group, pallas};
use zcash_pasta_accel::config::env_min_msm_size;
use zcash_pasta_accel::fuzz::{
    backend_result_acceptable, decode_fuzz_options, fuzz_pallas, fuzz_vesta, seed_pairs,
    u64_from_le, with_cpu_resolved_auto, FuzzOptions,
};
use zcash_pasta_accel::{
    dispatch_config, msm_pallas, plan_msm_schedule, record_msm_candidate, take_dispatch_stats,
    with_dispatch_config, AccelError, Backend, DispatchConfig, DispatchStats, MsmBatchConfig,
    MsmBatchPlan, MsmScheduleDecision, MsmScheduleSummary, DEFAULT_MIN_BATCH_ITEMS,
    DEFAULT_MIN_BATCH_MSM, DEFAULT_MIN_BATCH_POINTS, DEFAULT_MIN_MSM,
};

fn accelerated(min_single: usize, min_batch: usize, items: usize, points: usize) -> MsmBatchConfig {
    MsmBatchConfig {
        backend: Backend::Auto,
        min_single_msm_size: min_single,
        min_batch_msm_size: min_batch,
        min_batch_items: items,
        min_batch_points: points,
    }
}

#[test]
fn defaults_match_documented_thresholds() {
    assert_eq!(
        DispatchConfig::default(),
        DispatchConfig { backend: Backend::Cpu, min_msm_size: 4096 }
    );
    assert_eq!(
        MsmBatchConfig::default(),
        MsmBatchConfig {
            backend: Backend::Cpu,
            min_single_msm_size: DEFAULT_MIN_MSM,
            min_batch_msm_size: DEFAULT_MIN_BATCH_MSM,
            min_batch_items: DEFAULT_MIN_BATCH_ITEMS,
            min_batch_points: DEFAULT_MIN_BATCH_POINTS,
        }
    );
    assert_eq!(DEFAULT_MIN_BATCH_POINTS, 4096);
    assert_eq!(MsmBatchPlan::default().decisions, vec![]);
    assert_eq!(MsmScheduleSummary::default().cpu_items, 0);
}

#[test]
fn batch_config_from_dispatch_config_keeps_backend_and_threshold() {
    let batch = MsmBatchConfig::from(DispatchConfig { backend: Backend::Cuda, min_msm_size: 77 });
    assert_eq!(
        batch,
        MsmBatchConfig {
            backend: Backend::Cuda,
            min_single_msm_size: 77,
            min_batch_msm_size: 1024,
            min_batch_items: 2,
            min_batch_points: 4096,
        }
    );
}

#[test]
fn zero_sized_requests_stay_on_cpu_even_when_accelerating() {
    let plan = plan_msm_schedule(&[0, 5000, 0], accelerated(4096, 1024, 2, 2048));
    assert_eq!(
        plan.decisions,
        vec![MsmScheduleDecision::Cpu, MsmScheduleDecision::Immediate, MsmScheduleDecision::Cpu]
    );
    assert_eq!(plan.summary.cpu_items, 2);
    assert_eq!(plan.summary.immediate_points, 5000);
}

#[test]
fn zero_thresholds_count_as_one() {
    // With every threshold at zero, any non-empty request is large enough to go out immediately.
    let plan = plan_msm_schedule(&[1, 2, 0], accelerated(0, 0, 0, 0));
    assert_eq!(
        plan.decisions,
        vec![
            MsmScheduleDecision::Immediate,
            MsmScheduleDecision::Immediate,
            MsmScheduleDecision::Cpu
        ]
    );
}

#[test]
fn batch_is_kept_only_when_both_thresholds_are_met() {
    // Three medium requests, but 3000 points < 4096: demoted.
    let plan = plan_msm_schedule(&[1000, 1000, 1000], accelerated(4096, 1000, 3, 4096));
    assert!(plan.decisions.iter().all(|d| *d == MsmScheduleDecision::Cpu));
    // Enough points, but only two items < 3: demoted.
    let plan = plan_msm_schedule(&[3000, 3000], accelerated(4096, 1000, 3, 4096));
    assert!(plan.decisions.iter().all(|d| *d == MsmScheduleDecision::Cpu));
    // Both thresholds met: kept.
    let plan = plan_msm_schedule(&[2000, 2000, 2000, 100], accelerated(4096, 1000, 3, 4096));
    assert_eq!(
        plan.decisions,
        vec![
            MsmScheduleDecision::Batch,
            MsmScheduleDecision::Batch,
            MsmScheduleDecision::Batch,
            MsmScheduleDecision::Cpu
        ]
    );
    assert_eq!(
        plan.summary,
        MsmScheduleSummary {
            cpu_items: 1,
            cpu_points: 100,
            batch_items: 3,
            batch_points: 6000,
            immediate_items: 0,
            immediate_points: 0,
        }
    );
}

#[test]
fn summary_accounts_for_every_request() {
    let requests = [0, 1, 1023, 1024, 4095, 4096, 9000, 2000];
    let plan = plan_msm_schedule(&requests, accelerated(4096, 1024, 2, 1));
    let s = plan.summary;
    assert_eq!(s.cpu_items + s.batch_items + s.immediate_items, requests.len() as u64);
    assert_eq!(
        s.cpu_points + s.batch_points + s.immediate_points,
        requests.iter().map(|p| *p as u64).sum::<u64>()
    );
    assert_eq!(plan.decisions.len(), requests.len());
}

#[test]
fn summary_points_saturate() {
    let plan = plan_msm_schedule(&[usize::MAX, usize::MAX, 5], accelerated(1, 1, 0, 0));
    assert_eq!(plan.summary.immediate_items, 3);
    if usize::BITS == 64 {
        assert_eq!(plan.summary.immediate_points, u64::MAX);
    }
}

#[test]
fn empty_plan_is_empty() {
    let plan = plan_msm_schedule(&[], MsmBatchConfig::default());
    assert_eq!(plan, MsmBatchPlan::default());
}

#[test]
fn min_msm_threshold_parses_like_std() {
    assert_eq!(env_min_msm_size(None), 4096);
    assert_eq!(env_min_msm_size(Some("17")), 17);
    assert_eq!(env_min_msm_size(Some("+17")), 17);
    assert_eq!(env_min_msm_size(Some("0017")), 17);
    assert_eq!(env_min_msm_size(Some("0")), 0);
    assert_eq!(env_min_msm_size(Some("")), 4096);
    assert_eq!(env_min_msm_size(Some("+")), 4096);
    assert_eq!(env_min_msm_size(Some("-1")), 4096);
    assert_eq!(env_min_msm_size(Some(" 17")), 4096);
    assert_eq!(env_min_msm_size(Some("1x")), 4096);
    assert_eq!(env_min_msm_size(Some("99999999999999999999999")), 4096);
    assert_eq!(
        env_min_msm_size(Some(&usize::MAX.to_string())),
        usize::MAX
    );
    for text in ["12", "+3", "007", "18446744073709551616", "٣", "-0", "4_096"] {
        assert_eq!(
            env_min_msm_size(Some(text)),
            text.parse::<usize>().unwrap_or(DEFAULT_MIN_MSM),
            "{text}"
        );
    }
}

#[test]
fn backend_names_ignore_ascii_case_only() {
    assert_eq!(zcash_pasta_accel::selected_backend(Some("AvX512")), Backend::Avx512);
    assert_eq!(zcash_pasta_accel::selected_backend(Some("OFF")), Backend::Cpu);
    assert_eq!(zcash_pasta_accel::selected_backend(Some("Auto")), Backend::Auto);
    assert_eq!(zcash_pasta_accel::selected_backend(Some("cuda ")), Backend::Cpu);
    assert_eq!(zcash_pasta_accel::selected_backend(Some("")), Backend::Cpu);
}

#[test]
fn override_wins_over_environment() {
    let config = DispatchConfig { backend: Backend::Avx512, min_msm_size: 1 };
    assert_eq!(dispatch_config(Some(config), Some("cuda"), Some("5")), config);
    assert_eq!(dispatch_config(None, Some("cuda"), Some("oops")).min_msm_size, 4096);
}

#[test]
fn scoped_override_is_restored_even_when_nested_scope_exists() {
    let original = Some(DispatchConfig { backend: Backend::Cuda, min_msm_size: 8 });
    let mut scoped = original;
    let seen = with_dispatch_config(
        &mut scoped,
        DispatchConfig { backend: Backend::Cpu, min_msm_size: 2 },
        |now| now,
    );
    assert_eq!(seen, Some(DispatchConfig { backend: Backend::Cpu, min_msm_size: 2 }));
    assert_eq!(scoped, original);
}

#[test]
fn auto_is_the_cpu_whatever_the_dispatch_settings() {
    let scalars = [pallas::Scalar::from(3)];
    let bases = [pasta_curves::group::Curve::to_affine(&pallas::Point::generator())];
    let cuda = DispatchConfig { backend: Backend::Cuda, min_msm_size: 0 };
    assert_eq!(
        msm_pallas(&scalars, &bases, Backend::Auto, cuda),
        Ok(pallas::Point::generator() * pallas::Scalar::from(3))
    );
    let avx512 = DispatchConfig { backend: Backend::Avx512, min_msm_size: 0 };
    assert_eq!(
        msm_pallas(&scalars, &bases, Backend::Auto, avx512),
        msm_pallas(&scalars, &bases, Backend::Cpu, avx512)
    );
    assert_eq!(
        msm_pallas(&scalars, &bases, Backend::Cuda, cuda),
        Err(AccelError::UnsupportedBackend)
    );
    let auto = DispatchConfig { backend: Backend::Auto, min_msm_size: 0 };
    assert_eq!(
        msm_pallas(&scalars, &bases, Backend::Auto, auto),
        Ok(pallas::Point::generator() * pallas::Scalar::from(3))
    );
    // Length is checked before the backend.
    assert_eq!(
        msm_pallas(&scalars, &[], Backend::Avx512, cuda),
        Err(AccelError::LengthMismatch)
    );
}

#[test]
fn stats_saturate_instead_of_wrapping() {
    let mut stats = DispatchStats {
        msm_candidates: u64::MAX,
        msm_candidate_points: u64::MAX - 1,
        msm_successes: 0,
        msm_fallbacks: 0,
    };
    record_msm_candidate(&mut stats, 10);
    assert_eq!(stats.msm_candidates, u64::MAX);
    assert_eq!(stats.msm_candidate_points, u64::MAX);
    let taken = take_dispatch_stats(&mut stats);
    assert_eq!(taken.msm_candidates, u64::MAX);
    assert_eq!(stats, DispatchStats::default());
}

#[test]
fn error_messages_match_their_display_text() {
    assert_eq!(AccelError::UnsupportedCurve.message(), "unsupported curve");
    assert_eq!(AccelError::UnsupportedBackend.message(), "unsupported backend");
    assert_eq!(AccelError::BackendUnavailable.message(), "backend unavailable");
    assert_eq!(AccelError::LengthMismatch.message(), "scalar and base length mismatch");
    assert_eq!(AccelError::InvalidPoint.message(), "invalid point");
    assert_eq!(AccelError::FfiError("boom".to_string()).message(), "ffi error: boom");
}

#[test]
fn fuzz_options_decode_bit_fields() {
    assert_eq!(
        decode_fuzz_options(0b0000),
        FuzzOptions { backend: Backend::Cpu, truncate_bases: false, vesta: false }
    );
    assert_eq!(
        decode_fuzz_options(0b0011),
        FuzzOptions { backend: Backend::Auto, truncate_bases: true, vesta: false }
    );
    assert_eq!(
        decode_fuzz_options(0b1100),
        FuzzOptions { backend: Backend::Cuda, truncate_bases: false, vesta: true }
    );
    assert_eq!(
        decode_fuzz_options(0xff),
        FuzzOptions { backend: Backend::Avx512, truncate_bases: true, vesta: true }
    );
}

#[test]
fn fuzz_seeds_are_little_endian_pairs_of_whole_chunks() {
    assert_eq!(u64_from_le(&[1, 2, 0, 0, 0, 0, 0, 0x80]), 0x8000_0000_0000_0201);
    let mut data: Vec<u8> = (0u8..40).collect();
    data.push(0xff);
    let pairs = seed_pairs(&data);
    assert_eq!(pairs.len(), 2);
    assert_eq!(pairs[0].0, u64::from_le_bytes([0, 1, 2, 3, 4, 5, 6, 7]));
    assert_eq!(pairs[1].1, u64::from_le_bytes([24, 25, 26, 27, 28, 29, 30, 31]));
    assert_eq!(seed_pairs(&vec![7u8; 16 * 200]).len(), 128);
}

#[test]
fn fuzz_accepts_only_matching_results_or_unusable_backends() {
    assert!(backend_result_acceptable(Backend::Cpu, &Ok(true)));
    assert!(!backend_result_acceptable(Backend::Cpu, &Ok(false)));
    assert!(!backend_result_acceptable(Backend::Cpu, &Err(AccelError::UnsupportedBackend)));
    assert!(backend_result_acceptable(Backend::Cuda, &Err(AccelError::UnsupportedBackend)));
    assert!(backend_result_acceptable(Backend::Avx512, &Err(AccelError::BackendUnavailable)));
    assert!(!backend_result_acceptable(Backend::Cuda, &Err(AccelError::InvalidPoint)));
    assert!(!backend_result_acceptable(Backend::Auto, &Err(AccelError::UnsupportedBackend)));
}

#[test]
fn fuzz_auto_runs_with_cpu_installed_and_restores_override() {
    let mut scoped = Some(DispatchConfig { backend: Backend::Cuda, min_msm_size: 1 });
    let seen = with_cpu_resolved_auto(&mut scoped, Backend::Auto, |now| now);
    assert_eq!(seen, Some(DispatchConfig { backend: Backend::Cpu, min_msm_size: 0 }));
    let seen = with_cpu_resolved_auto(&mut scoped, Backend::Cuda, |now| now);
    assert_eq!(seen, scoped);
    assert_eq!(scoped, Some(DispatchConfig { backend: Backend::Cuda, min_msm_size: 1 }));
}

#[test]
fn fuzz_cases_pass_on_every_backend() {
    let data: Vec<u8> = (0u8..=255).cycle().take(16 * 9 + 3).collect();
    let env = DispatchConfig { backend: Backend::Cuda, min_msm_size: 4096 };
    for options in 0u8..16 {
        let decoded = decode_fuzz_options(options);
        let mut scoped = None;
        let passed = if decoded.vesta {
            fuzz_vesta(&data, decoded.backend, decoded.truncate_bases, &mut scoped, env)
        } else {
            fuzz_pallas(&data, decoded.backend, decoded.truncate_bases, &mut scoped, env)
        };
        assert!(passed, "options {options}");
        assert_eq!(scoped, None);
    }
    let mut scoped = None;
    assert!(fuzz_pallas(&[], Backend::Cpu, true, &mut scoped, env));
}

#[test]
fn auto_empty_msm_is_the_identity() {
    let result = msm_pallas(&[], &[], Backend::Auto, DispatchConfig::default()).unwrap();
    assert_eq!(result, pallas::Point::identity());
}


#[test]
fn reordering_requests_reorders_their_decisions() {
    let config = MsmBatchConfig {
        backend: Backend::Cuda,
        min_single_msm_size: 4096,
        min_batch_msm_size: 1024,
        min_batch_items: 3,
        min_batch_points: 4096,
    };
    let plan = plan_msm_schedule(&[512, 1024, 1536, 2048, 4096], config);
    let reordered = plan_msm_schedule(&[4096, 2048, 512, 1536, 1024], config);
    assert_eq!(
        reordered.decisions,
        vec![
            plan.decisions[4],
            plan.decisions[3],
            plan.decisions[0],
            plan.decisions[2],
            plan.decisions[1],
        ]
    );
    assert_eq!(reordered.summary, plan.summary);
}
