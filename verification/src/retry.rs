//! The backoff policy: classification of failures as retryable, exponentially
//! increasing wait intervals with a ceiling, and the retry state machine.
//!
//! The policy itself performs no waiting: after each failed attempt the caller
//! asks the state machine for a decision and, when told to retry, waits the
//! prescribed number of milliseconds before the next attempt.

use vstd::prelude::*;

use crate::errors::RpcError;
use crate::text::{lowercase_chars, retryable_chars};

verus! {

/// The retry policy's configuration, fixed for an adapter's lifetime.
#[derive(Clone, Copy, Debug, PartialEq, Eq, Structural)]
pub struct RetryConfig {
    pub max_attempts: u32,
    pub initial_backoff_ms: u64,
    pub max_backoff_ms: u64,
}

impl RetryConfig {
    /// A configuration the state machine can run on: at least one attempt, an
    /// initial wait no longer than the ceiling, and a ceiling small enough
    /// that the total wait of a whole run fits the arithmetic.
    pub open spec fn wf(self) -> bool {
        &&& 1 <= self.max_attempts
        &&& self.initial_backoff_ms <= self.max_backoff_ms
        &&& (self.max_attempts as int) * (self.max_backoff_ms as int) <= u64::MAX as int
    }

    /// The fixed default: three attempts, waits starting at 100 ms, capped at
    /// five seconds.
    pub open spec fn spec_default() -> RetryConfig {
        RetryConfig { max_attempts: 3, initial_backoff_ms: 100, max_backoff_ms: 5000 }
    }
}

impl Default for RetryConfig {
    fn default() -> (r: Self)
        ensures
            r == RetryConfig::spec_default(),
            r.wf(),
    {
        RetryConfig { max_attempts: 3, initial_backoff_ms: 100, max_backoff_ms: 5000 }
    }
}

/// Classifies an error as retryable. Only errors that carry a cause can be
/// retryable, and only when the lower-cased text of the cause mentions a rate
/// limit, a timeout, a connection problem, or a 5xx-class server condition.
pub fn should_retry(err: &RpcError) -> (r: bool)
    ensures
        r == err.spec_retryable(),
{
    match &err.source {
        Some(source) => {
            let lowered = lowercase_chars(source.as_str());
            retryable_chars(&lowered)
        },
        None => false,
    }
}

/// The unclamped backoff before clamping: `initial_backoff_ms` doubled `i`
/// times.
pub open spec fn spec_backoff_raw(cfg: RetryConfig, i: nat) -> int
    decreases i,
{
    if i == 0 {
        cfg.initial_backoff_ms as int
    } else {
        2 * spec_backoff_raw(cfg, (i - 1) as nat)
    }
}

/// The wait prescribed after the `i`-th retried failure (counting from zero):
/// the initial backoff doubled `i` times, clamped to the ceiling.
pub open spec fn spec_backoff_at(cfg: RetryConfig, i: nat) -> int {
    if spec_backoff_raw(cfg, i) <= cfg.max_backoff_ms as int {
        spec_backoff_raw(cfg, i)
    } else {
        cfg.max_backoff_ms as int
    }
}

/// The unclamped backoff is geometric with factor two: the initial backoff
/// times the `i`-th power of two.
pub proof fn lemma_backoff_raw_is_geometric(cfg: RetryConfig, i: nat)
    ensures
        spec_backoff_raw(cfg, i) == cfg.initial_backoff_ms * vstd::arithmetic::power2::pow2(i),
    decreases i,
{
    vstd::arithmetic::power2::lemma_pow2_pos(i);
    if i == 0 {
        vstd::arithmetic::power2::lemma2_to64();
    } else {
        lemma_backoff_raw_is_geometric(cfg, (i - 1) as nat);
        vstd::arithmetic::power2::lemma_pow2_unfold(i);
        assert((cfg.initial_backoff_ms as int) * (2 * vstd::arithmetic::power2::pow2(
            (i - 1) as nat,
        )) == 2 * ((cfg.initial_backoff_ms as int) * vstd::arithmetic::power2::pow2(
            (i - 1) as nat,
        ))) by (nonlinear_arith);
    }
}

proof fn lemma_backoff_raw_nonneg(cfg: RetryConfig, i: nat)
    ensures
        spec_backoff_raw(cfg, i) >= 0,
    decreases i,
{
    if i > 0 {
        lemma_backoff_raw_nonneg(cfg, (i - 1) as nat);
    }
}

/// Doubling then clamping a clamped wait gives the next wait of the schedule.
proof fn lemma_backoff_step(cfg: RetryConfig, i: nat)
    ensures
        spec_backoff_at(cfg, i + 1) == if 2 * spec_backoff_at(cfg, i) <= cfg.max_backoff_ms as int {
            2 * spec_backoff_at(cfg, i)
        } else {
            cfg.max_backoff_ms as int
        },
{
    lemma_backoff_raw_nonneg(cfg, i);
    assert(spec_backoff_raw(cfg, i + 1) == 2 * spec_backoff_raw(cfg, i));
}

/// A decision of the backoff policy after a failed attempt.
#[derive(Clone, Copy, Debug, PartialEq, Eq, Structural)]
pub enum RetryDecision {
    /// Propagate the error: it is not retryable, or the attempts are
    /// exhausted.
    GiveUp,
    /// Wait this many milliseconds, then try again.
    RetryAfterMs(u64),
}

/// The retry state machine: how many attempts were already made and the wait
/// to prescribe if the next attempt fails and is retried.
#[derive(Clone, Copy, Debug, PartialEq, Eq, Structural)]
pub struct RetryState {
    pub attempts: u32,
    pub backoff_ms: u64,
}

impl RetryState {
    /// The state is consistent with the schedule: the stored wait is the one
    /// the schedule prescribes after the attempt about to be made.
    pub open spec fn inv(self, cfg: RetryConfig) -> bool {
        &&& self.attempts <= cfg.max_attempts
        &&& self.backoff_ms as int == spec_backoff_at(cfg, self.attempts as nat)
    }

    /// The state before any attempt was made.
    pub fn start(cfg: &RetryConfig) -> (r: Self)
        requires
            cfg.wf(),
        ensures
            r.attempts == 0,
            r.inv(*cfg),
    {
        RetryState { attempts: 0, backoff_ms: cfg.initial_backoff_ms }
    }

    /// Registers the failure of the next attempt and decides whether to retry
    /// it: retry exactly when the error is retryable and attempts remain, and
    /// then wait the current backoff; the stored backoff doubles, clamped to
    /// the ceiling.
    pub fn on_failure(&mut self, cfg: &RetryConfig, err: &RpcError) -> (r: RetryDecision)
        requires
            cfg.wf(),
            old(self).inv(*cfg),
            old(self).attempts < cfg.max_attempts,
        ensures
            final(self).inv(*cfg),
            final(self).attempts == old(self).attempts + 1,
            (r matches RetryDecision::RetryAfterMs(w) <==> (err.spec_retryable() && old(
                self,
            ).attempts + 1 < cfg.max_attempts)),
            (r matches RetryDecision::RetryAfterMs(w) ==> w as int == spec_backoff_at(
                *cfg,
                old(self).attempts as nat,
            )),
    {
        let wait = self.backoff_ms;
        let retryable = should_retry(err);
        proof {
            lemma_backoff_step(*cfg, self.attempts as nat);
        }
        let doubled: u64 = if self.backoff_ms <= cfg.max_backoff_ms / 2 {
            self.backoff_ms * 2
        } else {
            cfg.max_backoff_ms
        };
        self.attempts = self.attempts + 1;
        self.backoff_ms = doubled;
        if retryable && self.attempts < cfg.max_attempts {
            RetryDecision::RetryAfterMs(wait)
        } else {
            RetryDecision::GiveUp
        }
    }
}

/// What one attempt of a retried operation came to: the endpoint answered, or
/// the attempt failed with the given error.
pub enum AttemptOutcome {
    Succeed,
    Fail(RpcError),
}

/// The model of a whole retry loop run.
pub struct RunModel {
    /// The run ended by success or by propagating an error; a run is
    /// incomplete only when the given outcomes end before the loop would.
    pub complete: bool,
    pub success: bool,
    /// How many attempts were made.
    pub attempts: nat,
    /// The sum of all prescribed waits, in milliseconds.
    pub total_wait_ms: int,
    /// The propagated error of a complete, unsuccessful run.
    pub failure: Option<RpcError>,
}

/// The retry loop, run over the outcomes the attempts would meet, starting
/// after `done` attempts with `waited` milliseconds already spent waiting:
/// success returns at once; a non-retryable failure or the last permitted
/// attempt propagates the error; any other failure waits the scheduled
/// backoff and tries again.
pub open spec fn spec_run_from(
    cfg: RetryConfig,
    rest: Seq<AttemptOutcome>,
    done: nat,
    waited: int,
) -> RunModel
    decreases rest.len(),
{
    if rest.len() == 0 {
        RunModel { complete: false, success: false, attempts: done, total_wait_ms: waited, failure: None }
    } else {
        match rest[0] {
            AttemptOutcome::Succeed => RunModel {
                complete: true,
                success: true,
                attempts: done + 1,
                total_wait_ms: waited,
                failure: None,
            },
            AttemptOutcome::Fail(e) => if !e.spec_retryable() || done + 1 >= cfg.max_attempts {
                RunModel {
                    complete: true,
                    success: false,
                    attempts: done + 1,
                    total_wait_ms: waited,
                    failure: Some(e),
                }
            } else {
                spec_run_from(cfg, rest.drop_first(), done + 1, waited + spec_backoff_at(cfg, done))
            },
        }
    }
}

/// The retry loop run from the start on the given attempt outcomes.
pub open spec fn spec_run(cfg: RetryConfig, outcomes: Seq<AttemptOutcome>) -> RunModel {
    spec_run_from(cfg, outcomes, 0, 0)
}

/// What an executed retry loop reports.
pub struct RetryRun {
    pub complete: bool,
    pub success: bool,
    pub attempts: u32,
    pub total_wait_ms: u64,
    pub failure: Option<RpcError>,
}

/// Runs the retry loop over the outcomes the attempts meet, in order, and
/// reports how it ended and how long it waited in all. The caller performs
/// the attempts and the waits; this function makes every decision of the
/// loop, exactly as [`spec_run`] describes it.
pub fn execute_with_retry(cfg: &RetryConfig, outcomes: &Vec<AttemptOutcome>) -> (r: RetryRun)
    requires
        cfg.wf(),
    ensures
        ({
            let m = spec_run(*cfg, outcomes@);
            &&& r.complete == m.complete
            &&& r.success == m.success
            &&& r.attempts as nat == m.attempts
            &&& r.total_wait_ms as int == m.total_wait_ms
            &&& r.failure == m.failure
        }),
{
    let mut state = RetryState::start(cfg);
    let mut waited: u64 = 0;
    let mut i: usize = 0;
    proof {
        assert(outcomes@.skip(0) =~= outcomes@);
    }
    loop
        invariant
            cfg.wf(),
            state.inv(*cfg),
            state.attempts < cfg.max_attempts,
            i as int == state.attempts as int,
            i <= outcomes@.len(),
            waited as int <= (i as int) * (cfg.max_backoff_ms as int),
            spec_run(*cfg, outcomes@) == spec_run_from(
                *cfg,
                outcomes@.skip(i as int),
                i as nat,
                waited as int,
            ),
        decreases outcomes@.len() - i,
    {
        if i >= outcomes.len() {
            proof {
                assert(outcomes@.skip(i as int).len() == 0);
                assert(spec_run(*cfg, outcomes@) == RunModel {
                    complete: false,
                    success: false,
                    attempts: i as nat,
                    total_wait_ms: waited as int,
                    failure: None,
                });
            }
            return RetryRun {
                complete: false,
                success: false,
                attempts: i as u32,
                total_wait_ms: waited,
                failure: None,
            };
        }
        proof {
            assert(outcomes@.skip(i as int)[0] == outcomes@[i as int]);
        }
        match &outcomes[i] {
            AttemptOutcome::Succeed => {
                proof {
                    assert(spec_run(*cfg, outcomes@) == RunModel {
                        complete: true,
                        success: true,
                        attempts: (i + 1) as nat,
                        total_wait_ms: waited as int,
                        failure: None,
                    });
                }
                return RetryRun {
                    complete: true,
                    success: true,
                    attempts: (i + 1) as u32,
                    total_wait_ms: waited,
                    failure: None,
                };
            },
            AttemptOutcome::Fail(e) => {
                let decision = state.on_failure(cfg, e);
                match decision {
                    RetryDecision::GiveUp => {
                        proof {
                            assert(spec_run(*cfg, outcomes@) == RunModel {
                                complete: true,
                                success: false,
                                attempts: (i + 1) as nat,
                                total_wait_ms: waited as int,
                                failure: Some(outcomes@[i as int]->Fail_0),
                            });
                        }
                        return RetryRun {
                            complete: true,
                            success: false,
                            attempts: (i + 1) as u32,
                            total_wait_ms: waited,
                            failure: Some(e.duplicate()),
                        };
                    },
                    RetryDecision::RetryAfterMs(w) => {
                        proof {
                            lemma_backoff_raw_nonneg(*cfg, i as nat);
                            assert((i as int + 1) * (cfg.max_backoff_ms as int) == (i as int) * (
                            cfg.max_backoff_ms as int) + (cfg.max_backoff_ms as int))
                                by (nonlinear_arith);
                            assert((i as int + 1) * (cfg.max_backoff_ms as int) <= (
                            cfg.max_attempts as int) * (cfg.max_backoff_ms as int))
                                by (nonlinear_arith)
                                requires
                                    i as int + 1 <= cfg.max_attempts as int,
                                    cfg.max_backoff_ms as int >= 0,
                            ;
                            assert(outcomes@.skip(i as int).drop_first() =~= outcomes@.skip(
                                i as int + 1,
                            ));
                        }
                        waited = waited + w;
                        i = i + 1;
                    },
                }
            },
        }
    }
}

/// The sum of the scheduled waits with indices `lo` (inclusive) up to `hi`
/// (exclusive).
pub open spec fn spec_wait_range(cfg: RetryConfig, lo: nat, hi: nat) -> int
    decreases hi - lo,
{
    if lo >= hi {
        0
    } else {
        spec_backoff_at(cfg, lo) + spec_wait_range(cfg, lo + 1, hi)
    }
}

/// The sum of the first `waits` scheduled waits: the geometric series of the
/// initial backoff doubled and clamped to the ceiling, term by term.
pub open spec fn spec_total_wait(cfg: RetryConfig, waits: nat) -> int {
    spec_wait_range(cfg, 0, waits)
}

proof fn lemma_run_bound_from(cfg: RetryConfig, rest: Seq<AttemptOutcome>, done: nat, waited: int)
    requires
        cfg.wf(),
        done < cfg.max_attempts,
    ensures
        spec_run_from(cfg, rest, done, waited).total_wait_ms <= waited + (cfg.max_attempts - 1
            - done) * (cfg.max_backoff_ms as int),
    decreases rest.len(),
{
    assert((cfg.max_attempts - 1 - done) * (cfg.max_backoff_ms as int) >= 0) by (nonlinear_arith)
        requires
            cfg.max_attempts - 1 - done >= 0,
            cfg.max_backoff_ms as int >= 0,
    ;
    if rest.len() > 0 && (rest[0] matches AttemptOutcome::Fail(e) && e.spec_retryable() && done + 1
        < cfg.max_attempts) {
        lemma_backoff_raw_nonneg(cfg, done);
        lemma_run_bound_from(cfg, rest.drop_first(), done + 1, waited + spec_backoff_at(cfg, done));
        assert((cfg.max_attempts - 1 - done) * (cfg.max_backoff_ms as int) == (cfg.max_backoff_ms
            as int) + (cfg.max_attempts - 1 - (done + 1)) * (cfg.max_backoff_ms as int))
            by (nonlinear_arith);
    }
}

/// The policy's implicit time bound: whatever outcomes the attempts meet, the
/// waits of one run sum to at most `max_attempts - 1` times the ceiling.
pub proof fn lemma_total_wait_bounded(cfg: RetryConfig, outcomes: Seq<AttemptOutcome>)
    requires
        cfg.wf(),
    ensures
        spec_run(cfg, outcomes).total_wait_ms <= (cfg.max_attempts - 1) * (
        cfg.max_backoff_ms as int),
{
    lemma_run_bound_from(cfg, outcomes, 0, 0);
}

proof fn lemma_run_pattern(
    cfg: RetryConfig,
    rest: Seq<AttemptOutcome>,
    fails: nat,
    done: nat,
    waited: int,
)
    requires
        cfg.wf(),
        rest.len() == fails + 1,
        forall|i: int|
            0 <= i < fails ==> ((#[trigger] rest[i]) matches AttemptOutcome::Fail(e)
                && e.spec_retryable()),
        rest[fails as int] is Succeed,
        done < cfg.max_attempts,
    ensures
        ({
            let m = spec_run_from(cfg, rest, done, waited);
            &&& m.complete
            &&& (m.success <==> done + fails < cfg.max_attempts)
            &&& m.total_wait_ms == waited + spec_wait_range(
                cfg,
                done,
                if done + fails <= cfg.max_attempts - 1 {
                    (done + fails) as nat
                } else {
                    (cfg.max_attempts - 1) as nat
                },
            )
        }),
    decreases fails,
{
    if fails == 0 {
        assert(rest[0] is Succeed);
    } else {
        assert(rest[0] matches AttemptOutcome::Fail(e) && e.spec_retryable());
        if done + 1 >= cfg.max_attempts {
            assert(spec_wait_range(cfg, done, done) == 0);
        } else {
            let rest2 = rest.drop_first();
            assert forall|i: int| 0 <= i < fails - 1 implies (#[trigger] rest2[i])
                matches AttemptOutcome::Fail(e) && e.spec_retryable() by {
                assert(rest2[i] == rest[i + 1]);
            }
            assert(rest2[fails - 1] == rest[fails as int]);
            lemma_run_pattern(
                cfg,
                rest2,
                (fails - 1) as nat,
                done + 1,
                waited + spec_backoff_at(cfg, done),
            );
            let hi = if done + fails <= cfg.max_attempts - 1 {
                (done + fails) as nat
            } else {
                (cfg.max_attempts - 1) as nat
            };
            assert(spec_wait_range(cfg, done, hi) == spec_backoff_at(cfg, done) + spec_wait_range(
                cfg,
                done + 1,
                hi,
            ));
        }
    }
}

/// Backoff Policy law: a run that meets `fails` consecutive retryable
/// failures and then a success succeeds exactly when `fails` is below the
/// configured number of attempts, and its total wait is the sum of the first
/// `min(fails, max_attempts - 1)` scheduled backoffs — the geometric series
/// of the initial backoff with factor two, each term clamped to the ceiling.
pub proof fn lemma_backoff_policy(cfg: RetryConfig, outcomes: Seq<AttemptOutcome>, fails: nat)
    requires
        cfg.wf(),
        outcomes.len() == fails + 1,
        forall|i: int|
            0 <= i < fails ==> ((#[trigger] outcomes[i]) matches AttemptOutcome::Fail(e)
                && e.spec_retryable()),
        outcomes[fails as int] is Succeed,
    ensures
        ({
            let m = spec_run(cfg, outcomes);
            &&& m.complete
            &&& (m.success <==> fails < cfg.max_attempts)
            &&& m.total_wait_ms == spec_total_wait(
                cfg,
                if fails < cfg.max_attempts {
                    fails
                } else {
                    (cfg.max_attempts - 1) as nat
                },
            )
        }),
{
    lemma_run_pattern(cfg, outcomes, fails, 0, 0);
}

} // verus!
