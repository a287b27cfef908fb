//! Policy-only planning of how pending MSM requests are scheduled.

use vstd::prelude::*;

use crate::backend::{Backend, DispatchConfig, DEFAULT_MIN_MSM};
use vstd::std_specs::convert::FromSpec;

verus! {

/// Default minimum size for a medium MSM to be considered batchable.
pub const DEFAULT_MIN_BATCH_MSM: usize = 1024;

/// Default number of medium MSMs required before a batch is worth scheduling.
pub const DEFAULT_MIN_BATCH_ITEMS: usize = 2;

/// Default total points required before a medium-MSM batch is worth scheduling.
pub const DEFAULT_MIN_BATCH_POINTS: usize = DEFAULT_MIN_MSM;

/// Policy knobs for planning MSM execution before handing work to a backend.
#[derive(Clone, Copy, Debug, PartialEq, Eq, Structural)]
pub struct MsmBatchConfig {
    /// Backend requested for accelerated work.
    pub backend: Backend,
    /// MSMs at or above this size are considered standalone acceleration work.
    pub min_single_msm_size: usize,
    /// MSMs at or above this size but below `min_single_msm_size` can be batched.
    pub min_batch_msm_size: usize,
    /// Minimum number of medium MSMs required to keep a batch candidate.
    pub min_batch_items: usize,
    /// Minimum total points required to keep a batch candidate.
    pub min_batch_points: usize,
}

impl MsmBatchConfig {
    /// CPU backend with the default thresholds.
    pub open spec fn spec_default() -> MsmBatchConfig {
        MsmBatchConfig {
            backend: Backend::Cpu,
            min_single_msm_size: DEFAULT_MIN_MSM,
            min_batch_msm_size: DEFAULT_MIN_BATCH_MSM,
            min_batch_items: DEFAULT_MIN_BATCH_ITEMS,
            min_batch_points: DEFAULT_MIN_BATCH_POINTS,
        }
    }
}

impl Default for MsmBatchConfig {
    fn default() -> (config: Self)
        ensures
            config == MsmBatchConfig::spec_default(),
    {
        MsmBatchConfig {
            backend: Backend::Cpu,
            min_single_msm_size: DEFAULT_MIN_MSM,
            min_batch_msm_size: DEFAULT_MIN_BATCH_MSM,
            min_batch_items: DEFAULT_MIN_BATCH_ITEMS,
            min_batch_points: DEFAULT_MIN_BATCH_POINTS,
        }
    }
}

impl From<DispatchConfig> for MsmBatchConfig {
    fn from(config: DispatchConfig) -> (batch: Self)
        ensures
            batch.backend == config.backend,
            batch.min_single_msm_size == config.min_msm_size,
            batch.min_batch_msm_size == 1024,
            batch.min_batch_items == 2,
            batch.min_batch_points == 4096,
    {
        MsmBatchConfig {
            backend: config.backend,
            min_single_msm_size: config.min_msm_size,
            ..Self::default()
        }
    }
}

impl vstd::std_specs::convert::FromSpecImpl<DispatchConfig> for MsmBatchConfig {
    open spec fn obeys_from_spec() -> bool {
        true
    }

    open spec fn from_spec(config: DispatchConfig) -> MsmBatchConfig {
        MsmBatchConfig {
            backend: config.backend,
            min_single_msm_size: config.min_msm_size,
            ..MsmBatchConfig::spec_default()
        }
    }
}

/// Schedule decision for one MSM request in an [`MsmBatchPlan`].
#[derive(Clone, Copy, Debug, PartialEq, Eq, Structural)]
pub enum MsmScheduleDecision {
    /// Run this MSM on the caller's CPU path.
    Cpu,
    /// Accumulate this medium MSM with compatible batch work.
    Batch,
    /// Send this large MSM to the requested backend as standalone work.
    Immediate,
}

/// Aggregate counts for an MSM schedule plan.
#[derive(Clone, Copy, Debug, PartialEq, Eq, Structural)]
pub struct MsmScheduleSummary {
    /// Number of MSMs assigned to CPU execution.
    pub cpu_items: u64,
    /// Total points assigned to CPU execution.
    pub cpu_points: u64,
    /// Number of MSMs assigned to medium-MSM batching.
    pub batch_items: u64,
    /// Total points assigned to medium-MSM batching.
    pub batch_points: u64,
    /// Number of MSMs assigned to standalone accelerated execution.
    pub immediate_items: u64,
    /// Total points assigned to standalone accelerated execution.
    pub immediate_points: u64,
}

/// `value`, clamped to the largest `u64`.
pub open spec fn saturate(value: int) -> u64 {
    if value > u64::MAX {
        u64::MAX
    } else if value < 0 {
        0
    } else {
        value as u64
    }
}

impl MsmScheduleSummary {
    /// All counters zero.
    pub open spec fn spec_zero() -> MsmScheduleSummary {
        MsmScheduleSummary {
            cpu_items: 0,
            cpu_points: 0,
            batch_items: 0,
            batch_points: 0,
            immediate_items: 0,
            immediate_points: 0,
        }
    }

    /// The summary after one more request of `points` points goes to `decision`:
    /// that decision's item and point counters grow, saturating at `u64::MAX`.
    pub open spec fn spec_record(self, decision: MsmScheduleDecision, points: usize) -> MsmScheduleSummary {
        match decision {
            MsmScheduleDecision::Cpu => MsmScheduleSummary {
                cpu_items: saturate(self.cpu_items + 1),
                cpu_points: saturate(self.cpu_points + points),
                ..self
            },
            MsmScheduleDecision::Batch => MsmScheduleSummary {
                batch_items: saturate(self.batch_items + 1),
                batch_points: saturate(self.batch_points + points),
                ..self
            },
            MsmScheduleDecision::Immediate => MsmScheduleSummary {
                immediate_items: saturate(self.immediate_items + 1),
                immediate_points: saturate(self.immediate_points + points),
                ..self
            },
        }
    }

    fn record(&mut self, decision: MsmScheduleDecision, points: usize)
        ensures
            *final(self) == old(self).spec_record(decision, points),
    {
        let points = points as u64;
        match decision {
            MsmScheduleDecision::Cpu => {
                self.cpu_items = self.cpu_items.saturating_add(1);
                self.cpu_points = self.cpu_points.saturating_add(points);
            },
            MsmScheduleDecision::Batch => {
                self.batch_items = self.batch_items.saturating_add(1);
                self.batch_points = self.batch_points.saturating_add(points);
            },
            MsmScheduleDecision::Immediate => {
                self.immediate_items = self.immediate_items.saturating_add(1);
                self.immediate_points = self.immediate_points.saturating_add(points);
            },
        }
    }
}

impl Default for MsmScheduleSummary {
    fn default() -> (summary: Self)
        ensures
            summary == MsmScheduleSummary::spec_zero(),
    {
        MsmScheduleSummary {
            cpu_items: 0,
            cpu_points: 0,
            batch_items: 0,
            batch_points: 0,
            immediate_items: 0,
            immediate_points: 0,
        }
    }
}

/// Policy-only MSM schedule plan.
#[derive(Clone, Debug, PartialEq, Eq)]
pub struct MsmBatchPlan {
    /// Per-request decisions matching the input order.
    pub decisions: Vec<MsmScheduleDecision>,
    /// Aggregate counts for logging, metrics, and threshold tuning.
    pub summary: MsmScheduleSummary,
}

impl Default for MsmBatchPlan {
    fn default() -> (plan: Self)
        ensures
            plan.decisions@ == Seq::<MsmScheduleDecision>::empty(),
            plan.summary == MsmScheduleSummary::spec_zero(),
    {
        MsmBatchPlan { decisions: Vec::new(), summary: MsmScheduleSummary::default() }
    }
}

/// A threshold of zero counts as one.
pub open spec fn at_least_one(threshold: usize) -> int {
    if threshold == 0 {
        1
    } else {
        threshold as int
    }
}

/// Where one request of `points` points would go before batches are checked:
/// nothing leaves the CPU when the CPU backend is requested or the request is
/// empty; large requests go out immediately; medium ones are batch candidates;
/// small ones stay on the CPU.
pub open spec fn first_decision(points: usize, config: MsmBatchConfig) -> MsmScheduleDecision {
    if config.backend == Backend::Cpu || points == 0 {
        MsmScheduleDecision::Cpu
    } else if points >= at_least_one(config.min_single_msm_size) {
        MsmScheduleDecision::Immediate
    } else if points >= at_least_one(config.min_batch_msm_size) {
        MsmScheduleDecision::Batch
    } else {
        MsmScheduleDecision::Cpu
    }
}

/// Number of batch candidates among `requests`.
pub open spec fn candidate_count(requests: Seq<usize>, config: MsmBatchConfig) -> nat
    decreases requests.len(),
{
    if requests.len() == 0 {
        0
    } else {
        candidate_count(requests.drop_last(), config) + if first_decision(requests.last(), config)
            == MsmScheduleDecision::Batch {
            1nat
        } else {
            0nat
        }
    }
}

/// Total points of the batch candidates among `requests`.
pub open spec fn candidate_points(requests: Seq<usize>, config: MsmBatchConfig) -> nat
    decreases requests.len(),
{
    if requests.len() == 0 {
        0
    } else {
        candidate_points(requests.drop_last(), config) + if first_decision(requests.last(), config)
            == MsmScheduleDecision::Batch {
            requests.last() as nat
        } else {
            0nat
        }
    }
}

/// Whether the batch candidates are numerous and large enough to be kept as a
/// batch (their point total counted with saturation at `u64::MAX`).
pub open spec fn batch_is_kept(requests: Seq<usize>, config: MsmBatchConfig) -> bool {
    &&& candidate_count(requests, config) >= config.min_batch_items
    &&& saturate(candidate_points(requests, config) as int) >= config.min_batch_points
}

/// A batch candidate falls back to the CPU when the batch is not kept.
pub open spec fn settle(decision: MsmScheduleDecision, kept: bool) -> MsmScheduleDecision {
    if decision == MsmScheduleDecision::Batch && !kept {
        MsmScheduleDecision::Cpu
    } else {
        decision
    }
}

/// The decision for each request, in input order.
pub open spec fn planned_decisions(requests: Seq<usize>, config: MsmBatchConfig) -> Seq<
    MsmScheduleDecision,
> {
    let kept = batch_is_kept(requests, config);
    Seq::new(requests.len(), |i: int| settle(first_decision(requests[i], config), kept))
}

/// Number of requests that received `decision` among the first `n`.
pub open spec fn decided_items(
    decisions: Seq<MsmScheduleDecision>,
    decision: MsmScheduleDecision,
    n: int,
) -> nat
    decreases n,
{
    if n <= 0 {
        0
    } else {
        decided_items(decisions, decision, n - 1) + if decisions[n - 1] == decision {
            1nat
        } else {
            0nat
        }
    }
}

/// Total points of the requests that received `decision` among the first `n`.
pub open spec fn decided_points(
    decisions: Seq<MsmScheduleDecision>,
    requests: Seq<usize>,
    decision: MsmScheduleDecision,
    n: int,
) -> nat
    decreases n,
{
    if n <= 0 {
        0
    } else {
        decided_points(decisions, requests, decision, n - 1) + if decisions[n - 1] == decision {
            requests[n - 1] as nat
        } else {
            0nat
        }
    }
}

/// The counts of a plan over its first `n` requests, each saturating at `u64::MAX`.
pub open spec fn summary_of(
    decisions: Seq<MsmScheduleDecision>,
    requests: Seq<usize>,
    n: int,
) -> MsmScheduleSummary {
    MsmScheduleSummary {
        cpu_items: saturate(decided_items(decisions, MsmScheduleDecision::Cpu, n) as int),
        cpu_points: saturate(
            decided_points(decisions, requests, MsmScheduleDecision::Cpu, n) as int,
        ),
        batch_items: saturate(decided_items(decisions, MsmScheduleDecision::Batch, n) as int),
        batch_points: saturate(
            decided_points(decisions, requests, MsmScheduleDecision::Batch, n) as int,
        ),
        immediate_items: saturate(
            decided_items(decisions, MsmScheduleDecision::Immediate, n) as int,
        ),
        immediate_points: saturate(
            decided_points(decisions, requests, MsmScheduleDecision::Immediate, n) as int,
        ),
    }
}

proof fn lemma_saturate_step(total: nat, step: nat)
    ensures
        saturate(saturate(total as int) + step) == saturate((total + step) as int),
{
}

proof fn lemma_summary_step(
    decisions: Seq<MsmScheduleDecision>,
    requests: Seq<usize>,
    n: int,
)
    requires
        0 <= n < decisions.len(),
        n < requests.len(),
    ensures
        summary_of(decisions, requests, n + 1) == summary_of(decisions, requests, n).spec_record(
            decisions[n],
            requests[n],
        ),
{
    let d = decisions[n];
    let p = requests[n] as nat;
    lemma_saturate_step(decided_items(decisions, d, n), 1);
    lemma_saturate_step(decided_points(decisions, requests, d, n), p);
}

proof fn lemma_candidates_step(requests: Seq<usize>, config: MsmBatchConfig, n: int)
    requires
        0 <= n < requests.len(),
    ensures
        candidate_count(requests.take(n + 1), config) == candidate_count(requests.take(n), config)
            + if first_decision(requests[n], config) == MsmScheduleDecision::Batch {
            1nat
        } else {
            0nat
        },
        candidate_points(requests.take(n + 1), config) == candidate_points(requests.take(n), config)
            + if first_decision(requests[n], config) == MsmScheduleDecision::Batch {
            requests[n] as nat
        } else {
            0nat
        },
{
    assert(requests.take(n + 1).drop_last() =~= requests.take(n));
}

/// Plans how a set of pending MSM sizes should be scheduled.
///
/// This does not inspect backend availability or execute work. It gives
/// integration points a deterministic way to decide whether small MSMs stay on
/// CPU, medium MSMs are worth batching, and large MSMs should be dispatched
/// immediately.
pub fn plan_msm_schedule(request_points: &[usize], config: MsmBatchConfig) -> (plan: MsmBatchPlan)
    ensures
        plan.decisions@ == planned_decisions(request_points@, config),
        plan.summary == summary_of(plan.decisions@, request_points@, request_points@.len() as int),
{
    let n = request_points.len();
    let mut decisions: Vec<MsmScheduleDecision> = Vec::with_capacity(n);
    let acceleration_requested = config.backend != Backend::Cpu;
    let min_single_msm_size = if config.min_single_msm_size < 1 {
        1
    } else {
        config.min_single_msm_size
    };
    let min_batch_msm_size = if config.min_batch_msm_size < 1 {
        1
    } else {
        config.min_batch_msm_size
    };

    let mut batch_items: u64 = 0;
    let mut batch_points: u64 = 0;

    let mut i: usize = 0;
    while i < n
        invariant
            n == request_points@.len(),
            i <= n,
            acceleration_requested == (config.backend != Backend::Cpu),
            min_single_msm_size == at_least_one(config.min_single_msm_size),
            min_batch_msm_size == at_least_one(config.min_batch_msm_size),
            decisions@.len() == i,
            forall|k: int|
                0 <= k < i ==> decisions@[k] == first_decision(#[trigger] request_points@[k], config),
            batch_items == candidate_count(request_points@.take(i as int), config),
            batch_points == saturate(candidate_points(request_points@.take(i as int), config) as int),
        decreases n - i,
    {
        let points = request_points[i];
        let decision = if !acceleration_requested || points == 0 {
            MsmScheduleDecision::Cpu
        } else if points >= min_single_msm_size {
            MsmScheduleDecision::Immediate
        } else if points >= min_batch_msm_size {
            batch_items = batch_items.saturating_add(1);
            batch_points = batch_points.saturating_add(points as u64);
            MsmScheduleDecision::Batch
        } else {
            MsmScheduleDecision::Cpu
        };
        proof {
            lemma_candidates_step(request_points@, config, i as int);
            lemma_saturate_step(
                candidate_points(request_points@.take(i as int), config),
                points as nat,
            );
            assert(candidate_count(request_points@.take(i as int), config) <= i) by {
                lemma_candidate_count_bounded(request_points@.take(i as int), config);
            }
        }
        decisions.push(decision);
        i = i + 1;
    }
    proof {
        assert(request_points@.take(n as int) =~= request_points@);
    }
    let ghost requests = request_points@;
    let ghost kept = batch_is_kept(requests, config);

    let demote = batch_items < config.min_batch_items as u64 || batch_points
        < config.min_batch_points as u64;
    assert(demote == !kept);

    let mut j: usize = 0;
    while j < n
        invariant
            n == requests.len(),
            j <= n,
            decisions@.len() == n,
            demote == !kept,
            kept == batch_is_kept(requests, config),
            forall|k: int|
                0 <= k < j ==> decisions@[k] == settle(first_decision(#[trigger] requests[k], config), kept),
            forall|k: int|
                j <= k < n ==> decisions@[k] == first_decision(#[trigger] requests[k], config),
        decreases n - j,
    {
        if demote && decisions[j] == MsmScheduleDecision::Batch {
            decisions.set(j, MsmScheduleDecision::Cpu);
        }
        j = j + 1;
    }
    assert(decisions@ =~= planned_decisions(requests, config));

    let mut summary = MsmScheduleSummary::default();
    let mut m: usize = 0;
    while m < n
        invariant
            n == requests.len(),
            requests == request_points@,
            m <= n,
            decisions@.len() == n,
            summary == summary_of(decisions@, requests, m as int),
        decreases n - m,
    {
        proof {
            lemma_summary_step(decisions@, requests, m as int);
        }
        summary.record(decisions[m], request_points[m]);
        m = m + 1;
    }

    MsmBatchPlan { decisions, summary }
}

proof fn lemma_candidate_count_bounded(requests: Seq<usize>, config: MsmBatchConfig)
    ensures
        candidate_count(requests, config) <= requests.len(),
    decreases requests.len(),
{
    if requests.len() > 0 {
        lemma_candidate_count_bounded(requests.drop_last(), config);
    }
}

/// Total points over the first `n` requests.
pub open spec fn total_points(requests: Seq<usize>, n: int) -> nat
    decreases n,
{
    if n <= 0 {
        0
    } else {
        total_points(requests, n - 1) + requests[n - 1] as nat
    }
}

/// With the CPU backend requested, every request is planned for the CPU.
pub proof fn law_cpu_backend_plans_only_cpu(requests: Seq<usize>, config: MsmBatchConfig)
    requires
        config.backend == Backend::Cpu,
    ensures
        forall|i: int|
            0 <= i < requests.len() ==> #[trigger] planned_decisions(requests, config)[i]
                == MsmScheduleDecision::Cpu,
{
}

/// An empty request never leaves the CPU.
pub proof fn law_empty_request_stays_on_cpu(requests: Seq<usize>, config: MsmBatchConfig, i: int)
    requires
        0 <= i < requests.len(),
        requests[i] == 0,
    ensures
        planned_decisions(requests, config)[i] == MsmScheduleDecision::Cpu,
{
}

/// With an accelerated backend requested, a request at or above the
/// standalone threshold is dispatched immediately.
pub proof fn law_large_request_runs_immediately(
    requests: Seq<usize>,
    config: MsmBatchConfig,
    i: int,
)
    requires
        0 <= i < requests.len(),
        config.backend != Backend::Cpu,
        requests[i] >= at_least_one(config.min_single_msm_size),
    ensures
        planned_decisions(requests, config)[i] == MsmScheduleDecision::Immediate,
{
}

/// A request is batched only when acceleration is requested and its size lies
/// between the batch threshold and the standalone threshold.
pub proof fn law_batch_holds_only_medium_requests(
    requests: Seq<usize>,
    config: MsmBatchConfig,
    i: int,
)
    requires
        0 <= i < requests.len(),
        planned_decisions(requests, config)[i] == MsmScheduleDecision::Batch,
    ensures
        config.backend != Backend::Cpu,
        at_least_one(config.min_batch_msm_size) <= requests[i],
        requests[i] < at_least_one(config.min_single_msm_size),
{
}

/// When the batch candidates fall short of either batch threshold, every one
/// of them is planned for the CPU instead.
pub proof fn law_underfilled_batch_returns_to_cpu(
    requests: Seq<usize>,
    config: MsmBatchConfig,
    i: int,
)
    requires
        0 <= i < requests.len(),
        !batch_is_kept(requests, config),
        first_decision(requests[i], config) == MsmScheduleDecision::Batch,
    ensures
        planned_decisions(requests, config)[i] == MsmScheduleDecision::Cpu,
{
}

proof fn lemma_kept_batch_counts(requests: Seq<usize>, config: MsmBatchConfig, n: int)
    requires
        0 <= n <= requests.len(),
        batch_is_kept(requests, config),
    ensures
        decided_items(planned_decisions(requests, config), MsmScheduleDecision::Batch, n)
            == candidate_count(requests.take(n), config),
        decided_points(
            planned_decisions(requests, config),
            requests,
            MsmScheduleDecision::Batch,
            n,
        ) == candidate_points(requests.take(n), config),
    decreases n,
{
    if n > 0 {
        lemma_kept_batch_counts(requests, config, n - 1);
        lemma_candidates_step(requests, config, n - 1);
    } else {
        assert(requests.take(0) =~= Seq::<usize>::empty());
    }
}

/// A plan that batches anything batches at least `min_batch_items` requests
/// holding at least `min_batch_points` points in total.
pub proof fn law_planned_batch_meets_thresholds(
    requests: Seq<usize>,
    config: MsmBatchConfig,
    i: int,
)
    requires
        0 <= i < requests.len(),
        planned_decisions(requests, config)[i] == MsmScheduleDecision::Batch,
    ensures
        decided_items(
            planned_decisions(requests, config),
            MsmScheduleDecision::Batch,
            requests.len() as int,
        ) >= config.min_batch_items,
        saturate(
            decided_points(
                planned_decisions(requests, config),
                requests,
                MsmScheduleDecision::Batch,
                requests.len() as int,
            ) as int,
        ) >= config.min_batch_points,
{
    lemma_kept_batch_counts(requests, config, requests.len() as int);
    assert(requests.take(requests.len() as int) =~= requests);
}

proof fn lemma_summary_totals(decisions: Seq<MsmScheduleDecision>, requests: Seq<usize>, n: int)
    requires
        0 <= n <= decisions.len(),
        n <= requests.len(),
    ensures
        decided_items(decisions, MsmScheduleDecision::Cpu, n) + decided_items(
            decisions,
            MsmScheduleDecision::Batch,
            n,
        ) + decided_items(decisions, MsmScheduleDecision::Immediate, n) == n,
        decided_points(decisions, requests, MsmScheduleDecision::Cpu, n) + decided_points(
            decisions,
            requests,
            MsmScheduleDecision::Batch,
            n,
        ) + decided_points(decisions, requests, MsmScheduleDecision::Immediate, n)
            == total_points(requests, n),
    decreases n,
{
    if n > 0 {
        lemma_summary_totals(decisions, requests, n - 1);
    }
}

/// A plan's summary accounts for every request exactly once: its item counts
/// add up to the number of requests, and, when the total fits in a `u64`,
/// its point counts add up to the total number of points.
pub proof fn law_summary_accounts_for_every_request(
    requests: Seq<usize>,
    config: MsmBatchConfig,
)
    requires
        requests.len() <= u64::MAX,
    ensures
        ({
            let summary = summary_of(
                planned_decisions(requests, config),
                requests,
                requests.len() as int,
            );
            &&& summary.cpu_items + summary.batch_items + summary.immediate_items
                == requests.len()
            &&& total_points(requests, requests.len() as int) <= u64::MAX ==> summary.cpu_points
                + summary.batch_points + summary.immediate_points == total_points(
                requests,
                requests.len() as int,
            )
        }),
{
    lemma_summary_totals(
        planned_decisions(requests, config),
        requests,
        requests.len() as int,
    );
}

/// What one request of `points` points adds to a tally of the requests
/// settled on `decision`: one, or with `weigh_points` its points, when it is
/// settled there with the batch kept or not as `kept` says; otherwise nothing.
spec fn tally_term(
    points: usize,
    config: MsmBatchConfig,
    kept: bool,
    decision: MsmScheduleDecision,
    weigh_points: bool,
) -> nat {
    if settle(first_decision(points, config), kept) == decision {
        if weigh_points {
            points as nat
        } else {
            1nat
        }
    } else {
        0nat
    }
}

/// The sum of [`tally_term`] over `requests`.
spec fn settled_tally(
    requests: Seq<usize>,
    config: MsmBatchConfig,
    kept: bool,
    decision: MsmScheduleDecision,
    weigh_points: bool,
) -> nat
    decreases requests.len(),
{
    if requests.len() == 0 {
        0
    } else {
        settled_tally(requests.drop_last(), config, kept, decision, weigh_points) + tally_term(
            requests.last(),
            config,
            kept,
            decision,
            weigh_points,
        )
    }
}

proof fn lemma_tally_without(
    requests: Seq<usize>,
    config: MsmBatchConfig,
    kept: bool,
    decision: MsmScheduleDecision,
    weigh_points: bool,
    k: int,
)
    requires
        0 <= k < requests.len(),
    ensures
        settled_tally(requests, config, kept, decision, weigh_points) == settled_tally(
            requests.remove(k),
            config,
            kept,
            decision,
            weigh_points,
        ) + tally_term(requests[k], config, kept, decision, weigh_points),
    decreases requests.len(),
{
    if k == requests.len() - 1 {
        assert(requests.remove(k) =~= requests.drop_last());
    } else {
        let rest = requests.remove(k);
        lemma_tally_without(requests.drop_last(), config, kept, decision, weigh_points, k);
        assert(rest.drop_last() =~= requests.drop_last().remove(k));
        assert(rest.last() == requests.last());
    }
}

proof fn lemma_tally_depends_on_multiset(
    requests: Seq<usize>,
    reordered: Seq<usize>,
    config: MsmBatchConfig,
    kept: bool,
    decision: MsmScheduleDecision,
    weigh_points: bool,
)
    requires
        requests.to_multiset() == reordered.to_multiset(),
    ensures
        settled_tally(requests, config, kept, decision, weigh_points) == settled_tally(
            reordered,
            config,
            kept,
            decision,
            weigh_points,
        ),
    decreases requests.len(),
{
    requests.to_multiset_ensures();
    reordered.to_multiset_ensures();
    assert(requests.len() == reordered.len());
    if requests.len() > 0 {
        let last = requests.last();
        let n = requests.len() - 1;
        assert(requests.contains(last)) by {
            assert(requests[n] == last);
        }
        assert(reordered.to_multiset().count(last) > 0);
        let k = choose|k: int| 0 <= k < reordered.len() && reordered[k] == last;
        assert(requests.remove(n) =~= requests.drop_last());
        assert(requests.drop_last().to_multiset() == reordered.remove(k).to_multiset());
        lemma_tally_depends_on_multiset(
            requests.drop_last(),
            reordered.remove(k),
            config,
            kept,
            decision,
            weigh_points,
        );
        lemma_tally_without(reordered, config, kept, decision, weigh_points, k);
    }
}

proof fn lemma_candidates_are_a_tally(requests: Seq<usize>, config: MsmBatchConfig)
    ensures
        candidate_count(requests, config) == settled_tally(
            requests,
            config,
            true,
            MsmScheduleDecision::Batch,
            false,
        ),
        candidate_points(requests, config) == settled_tally(
            requests,
            config,
            true,
            MsmScheduleDecision::Batch,
            true,
        ),
    decreases requests.len(),
{
    if requests.len() > 0 {
        lemma_candidates_are_a_tally(requests.drop_last(), config);
    }
}

proof fn lemma_decided_are_a_tally(
    requests: Seq<usize>,
    config: MsmBatchConfig,
    decision: MsmScheduleDecision,
    n: int,
)
    requires
        0 <= n <= requests.len(),
    ensures
        decided_items(planned_decisions(requests, config), decision, n) == settled_tally(
            requests.take(n),
            config,
            batch_is_kept(requests, config),
            decision,
            false,
        ),
        decided_points(planned_decisions(requests, config), requests, decision, n)
            == settled_tally(
            requests.take(n),
            config,
            batch_is_kept(requests, config),
            decision,
            true,
        ),
    decreases n,
{
    if n > 0 {
        lemma_decided_are_a_tally(requests, config, decision, n - 1);
        assert(requests.take(n).drop_last() =~= requests.take(n - 1));
    } else {
        assert(requests.take(0) =~= Seq::<usize>::empty());
    }
}

proof fn lemma_decided_depend_on_multiset(
    requests: Seq<usize>,
    reordered: Seq<usize>,
    config: MsmBatchConfig,
    decision: MsmScheduleDecision,
)
    requires
        requests.to_multiset() == reordered.to_multiset(),
        batch_is_kept(requests, config) == batch_is_kept(reordered, config),
    ensures
        decided_items(planned_decisions(requests, config), decision, requests.len() as int)
            == decided_items(planned_decisions(reordered, config), decision, reordered.len() as int),
        decided_points(
            planned_decisions(requests, config),
            requests,
            decision,
            requests.len() as int,
        ) == decided_points(
            planned_decisions(reordered, config),
            reordered,
            decision,
            reordered.len() as int,
        ),
{
    let kept = batch_is_kept(requests, config);
    lemma_decided_are_a_tally(requests, config, decision, requests.len() as int);
    lemma_decided_are_a_tally(reordered, config, decision, reordered.len() as int);
    assert(requests.take(requests.len() as int) =~= requests);
    assert(reordered.take(reordered.len() as int) =~= reordered);
    lemma_tally_depends_on_multiset(requests, reordered, config, kept, decision, false);
    lemma_tally_depends_on_multiset(requests, reordered, config, kept, decision, true);
}

/// Reordering the requests reorders their decisions with them and leaves the
/// summary as it was: a plan depends on the sizes requested, not on the order
/// they come in, so two requests of the same size get the same decision in
/// either order, the batch is kept in both or in neither, and the counts agree.
pub proof fn law_plan_does_not_depend_on_request_order(
    requests: Seq<usize>,
    reordered: Seq<usize>,
    config: MsmBatchConfig,
    i: int,
    j: int,
)
    requires
        requests.to_multiset() == reordered.to_multiset(),
        0 <= i < requests.len(),
        0 <= j < reordered.len(),
        requests[i] == reordered[j],
    ensures
        batch_is_kept(requests, config) == batch_is_kept(reordered, config),
        planned_decisions(requests, config)[i] == planned_decisions(reordered, config)[j],
        summary_of(planned_decisions(requests, config), requests, requests.len() as int)
            == summary_of(planned_decisions(reordered, config), reordered, reordered.len() as int),
{
    lemma_candidates_are_a_tally(requests, config);
    lemma_candidates_are_a_tally(reordered, config);
    lemma_tally_depends_on_multiset(
        requests,
        reordered,
        config,
        true,
        MsmScheduleDecision::Batch,
        false,
    );
    lemma_tally_depends_on_multiset(
        requests,
        reordered,
        config,
        true,
        MsmScheduleDecision::Batch,
        true,
    );
    lemma_decided_depend_on_multiset(requests, reordered, config, MsmScheduleDecision::Cpu);
    lemma_decided_depend_on_multiset(requests, reordered, config, MsmScheduleDecision::Batch);
    lemma_decided_depend_on_multiset(requests, reordered, config, MsmScheduleDecision::Immediate);
}

/// The number of requests of at least `low` and below `high` points.
pub open spec fn count_sized(requests: Seq<usize>, low: int, high: int) -> nat
    decreases requests.len(),
{
    if requests.len() == 0 {
        0
    } else {
        count_sized(requests.drop_last(), low, high) + if low <= requests.last() < high {
            1nat
        } else {
            0nat
        }
    }
}

/// The total points of the requests of at least `low` and below `high` points.
pub open spec fn points_sized(requests: Seq<usize>, low: int, high: int) -> nat
    decreases requests.len(),
{
    if requests.len() == 0 {
        0
    } else {
        points_sized(requests.drop_last(), low, high) + if low <= requests.last() < high {
            requests.last() as nat
        } else {
            0nat
        }
    }
}

/// One more than any request size.
pub open spec fn beyond_any_request() -> int {
    usize::MAX as int + 1
}

proof fn lemma_tallies_by_size(
    requests: Seq<usize>,
    config: MsmBatchConfig,
    kept: bool,
)
    ensures
        ({
            let low = at_least_one(config.min_batch_msm_size);
            let high = at_least_one(config.min_single_msm_size);
            let below = if low < high {
                low
            } else {
                high
            };
            let top = beyond_any_request();
            &&& config.backend != Backend::Cpu ==> {
                &&& candidate_count(requests, config) == count_sized(requests, low, high)
                &&& candidate_points(requests, config) == points_sized(requests, low, high)
                &&& settled_tally(requests, config, kept, MsmScheduleDecision::Immediate, false)
                    == count_sized(requests, high, top)
                &&& settled_tally(requests, config, kept, MsmScheduleDecision::Immediate, true)
                    == points_sized(requests, high, top)
                &&& settled_tally(requests, config, kept, MsmScheduleDecision::Batch, false) == if kept {
                    count_sized(requests, low, high)
                } else {
                    0
                }
                &&& settled_tally(requests, config, kept, MsmScheduleDecision::Batch, true) == if kept {
                    points_sized(requests, low, high)
                } else {
                    0
                }
                &&& settled_tally(requests, config, kept, MsmScheduleDecision::Cpu, false)
                    == count_sized(requests, 0, below) + if kept {
                    0
                } else {
                    count_sized(requests, low, high)
                }
                &&& settled_tally(requests, config, kept, MsmScheduleDecision::Cpu, true)
                    == points_sized(requests, 0, below) + if kept {
                    0
                } else {
                    points_sized(requests, low, high)
                }
            }
            &&& config.backend == Backend::Cpu ==> {
                &&& candidate_count(requests, config) == 0
                &&& settled_tally(requests, config, kept, MsmScheduleDecision::Immediate, false) == 0
                &&& settled_tally(requests, config, kept, MsmScheduleDecision::Immediate, true) == 0
                &&& settled_tally(requests, config, kept, MsmScheduleDecision::Batch, false) == 0
                &&& settled_tally(requests, config, kept, MsmScheduleDecision::Batch, true) == 0
                &&& settled_tally(requests, config, kept, MsmScheduleDecision::Cpu, false)
                    == count_sized(requests, 0, top)
                &&& settled_tally(requests, config, kept, MsmScheduleDecision::Cpu, true)
                    == points_sized(requests, 0, top)
            }
        }),
    decreases requests.len(),
{
    if requests.len() > 0 {
        lemma_tallies_by_size(requests.drop_last(), config, kept);
    }
}

/// Where each request goes. With the CPU backend requested every request
/// stays on the CPU. Otherwise, with the thresholds read as at least one, a
/// request of at least `min_single_msm_size` points goes out immediately; a
/// request of at least `min_batch_msm_size` and below `min_single_msm_size`
/// points joins the batch exactly when such requests number at least
/// `min_batch_items` and hold at least `min_batch_points` points in total,
/// and stays on the CPU otherwise; every other request stays on the CPU.
pub proof fn law_each_request_is_planned_by_its_size(
    requests: Seq<usize>,
    config: MsmBatchConfig,
    i: int,
)
    requires
        0 <= i < requests.len(),
    ensures
        ({
            let low = if config.min_batch_msm_size == 0 {
                1
            } else {
                config.min_batch_msm_size as int
            };
            let high = if config.min_single_msm_size == 0 {
                1
            } else {
                config.min_single_msm_size as int
            };
            let batch_filled = count_sized(requests, low, high) >= config.min_batch_items
                && points_sized(requests, low, high) >= config.min_batch_points;
            let decision = planned_decisions(requests, config)[i];
            &&& decision == MsmScheduleDecision::Immediate <==> config.backend != Backend::Cpu
                && requests[i] >= high
            &&& decision == MsmScheduleDecision::Batch <==> config.backend != Backend::Cpu && low
                <= requests[i] < high && batch_filled
            &&& decision == MsmScheduleDecision::Cpu <==> !(config.backend != Backend::Cpu
                && requests[i] >= high) && !(config.backend != Backend::Cpu && low <= requests[i]
                < high && batch_filled)
        }),
{
    lemma_tallies_by_size(requests, config, true);
}

/// What a plan's summary counts. With the CPU backend requested, every
/// request and all their points are on the CPU. Otherwise, with the
/// thresholds read as at least one, the requests of at least
/// `min_single_msm_size` points are counted as immediate; those of at least
/// `min_batch_msm_size` and below `min_single_msm_size` points as batched when
/// they number at least `min_batch_items` and hold at least
/// `min_batch_points` points, and on the CPU when they do not; and all
/// smaller requests on the CPU. Each count saturates at `u64::MAX`.
pub proof fn law_summary_counts_requests_by_size(requests: Seq<usize>, config: MsmBatchConfig)
    ensures
        ({
            let low = if config.min_batch_msm_size == 0 {
                1
            } else {
                config.min_batch_msm_size as int
            };
            let high = if config.min_single_msm_size == 0 {
                1
            } else {
                config.min_single_msm_size as int
            };
            let below = if low < high {
                low
            } else {
                high
            };
            let top = usize::MAX as int + 1;
            let batch_filled = count_sized(requests, low, high) >= config.min_batch_items
                && points_sized(requests, low, high) >= config.min_batch_points;
            let summary = summary_of(
                planned_decisions(requests, config),
                requests,
                requests.len() as int,
            );
            &&& config.backend == Backend::Cpu ==> {
                &&& summary.cpu_items == saturate(count_sized(requests, 0, top) as int)
                &&& summary.cpu_points == saturate(points_sized(requests, 0, top) as int)
                &&& summary.batch_items == 0 && summary.batch_points == 0
                &&& summary.immediate_items == 0 && summary.immediate_points == 0
            }
            &&& config.backend != Backend::Cpu ==> {
                &&& summary.immediate_items == saturate(count_sized(requests, high, top) as int)
                &&& summary.immediate_points == saturate(points_sized(requests, high, top) as int)
                &&& summary.batch_items == if batch_filled {
                    saturate(count_sized(requests, low, high) as int)
                } else {
                    0
                }
                &&& summary.batch_points == if batch_filled {
                    saturate(points_sized(requests, low, high) as int)
                } else {
                    0
                }
                &&& summary.cpu_items == saturate(
                    (count_sized(requests, 0, below) + if batch_filled {
                        0
                    } else {
                        count_sized(requests, low, high)
                    }) as int,
                )
                &&& summary.cpu_points == saturate(
                    (points_sized(requests, 0, below) + if batch_filled {
                        0
                    } else {
                        points_sized(requests, low, high)
                    }) as int,
                )
            }
        }),
{
    let kept = batch_is_kept(requests, config);
    lemma_tallies_by_size(requests, config, kept);
    lemma_decided_are_a_tally(requests, config, MsmScheduleDecision::Cpu, requests.len() as int);
    lemma_decided_are_a_tally(requests, config, MsmScheduleDecision::Batch, requests.len() as int);
    lemma_decided_are_a_tally(
        requests,
        config,
        MsmScheduleDecision::Immediate,
        requests.len() as int,
    );
    assert(requests.take(requests.len() as int) =~= requests);
}

/// The batch settings made from dispatch settings keep the dispatch backend
/// and take its threshold as the standalone threshold; every other knob is
/// its default: batchable from 1024 points, at least 2 requests and 4096
/// points per batch. The default settings are those knobs with the CPU
/// backend and a standalone threshold of 4096.
pub proof fn law_batch_config_from_dispatch_settings(config: DispatchConfig)
    ensures
        <MsmBatchConfig as FromSpec<DispatchConfig>>::from_spec(config) == (MsmBatchConfig {
            backend: config.backend,
            min_single_msm_size: config.min_msm_size,
            min_batch_msm_size: 1024,
            min_batch_items: 2,
            min_batch_points: 4096,
        }),
        MsmBatchConfig::spec_default() == (MsmBatchConfig {
            backend: Backend::Cpu,
            min_single_msm_size: 4096,
            min_batch_msm_size: 1024,
            min_batch_items: 2,
            min_batch_points: 4096,
        }),
{
}

} // verus!
