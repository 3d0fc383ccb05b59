//! Retry with exponential backoff.
//!
//! A call is tried once. Each failure is classified; a fatal one ends the
//! call, a retryable one is followed by a wait and another try, as long as
//! the waits granted so far, plus the next one, stay within the policy's
//! elapsed-time limit. The wait starts at the initial interval and grows by
//! the multiplier after each retry, up to the interval cap. All durations are
//! whole milliseconds.

use vstd::prelude::*;

verus! {

/// How a failed attempt is to be treated.
#[derive(Clone, Copy, Debug, PartialEq, Eq, Structural)]
pub enum ErrorClass {
    /// Trying again may succeed.
    Retryable,
    /// Trying again cannot change the outcome.
    Fatal,
}

/// What to do after a failed attempt.
#[derive(Clone, Copy, Debug, PartialEq, Eq, Structural)]
pub enum RetryDecision {
    /// Wait this many milliseconds, then try again.
    RetryAfter(u64),
    /// Stop and report the last error.
    GiveUp,
}

/// Why a set of numbers is not a retry policy.
#[derive(Clone, Copy, Debug, PartialEq, Eq, Structural)]
pub enum PolicyError {
    /// The initial interval is zero.
    ZeroInitialInterval,
    /// The multiplier is below one (below 1000 per mille).
    ShrinkingMultiplier,
    /// The interval cap is below the initial interval.
    CapBelowInitialInterval,
}

/// The mathematical content of a [`RetryPolicy`].
pub struct PolicyModel {
    pub initial_interval: nat,
    pub multiplier_permille: nat,
    pub max_interval: nat,
    pub max_elapsed_time: nat,
}

impl PolicyModel {
    /// The policy that is followed unless another is chosen: waits of 500 ms
    /// that grow by half up to one minute, within fifteen minutes in all.
    pub open spec fn standard() -> PolicyModel {
        PolicyModel {
            initial_interval: 500,
            multiplier_permille: 1500,
            max_interval: 60_000,
            max_elapsed_time: 900_000,
        }
    }

    /// The first wait is positive and within the cap, waits never shrink, and
    /// every duration fits in 64 bits.
    pub open spec fn valid(self) -> bool {
        &&& 1 <= self.initial_interval <= self.max_interval <= u64::MAX
        &&& 1000 <= self.multiplier_permille <= u64::MAX
        &&& self.max_elapsed_time <= u64::MAX
    }

    /// The wait that follows a wait of `current` milliseconds.
    pub open spec fn grow(self, current: nat) -> nat {
        let scaled = current * self.multiplier_permille / 1000;
        if scaled <= self.max_interval {
            scaled
        } else {
            self.max_interval
        }
    }

    /// The wait before retry number `k + 1` (the first retry has `k == 0`).
    pub open spec fn interval(self, k: nat) -> nat
        decreases k,
    {
        if k == 0 {
            self.initial_interval
        } else {
            self.grow(self.interval((k - 1) as nat))
        }
    }

    /// The sum of the first `k` waits.
    pub open spec fn total_wait(self, k: nat) -> nat
        decreases k,
    {
        if k == 0 {
            0
        } else {
            self.total_wait((k - 1) as nat) + self.interval((k - 1) as nat)
        }
    }

    /// After `k` retries one more wait still fits in the elapsed-time limit.
    pub open spec fn can_wait(self, k: nat) -> bool {
        self.total_wait(k) + self.interval(k) <= self.max_elapsed_time
    }

    /// The decision after a failure of class `class` that follows `k` retries.
    pub open spec fn decide(self, k: nat, class: ErrorClass) -> RetryDecision {
        if class == ErrorClass::Retryable && self.can_wait(k) {
            RetryDecision::RetryAfter(self.interval(k) as u64)
        } else {
            RetryDecision::GiveUp
        }
    }

    /// The number of attempts made for a call whose attempts fail, one after
    /// the other, with the classes in `failures`, counted from a state with
    /// `k` retries behind it. An attempt that `failures` does not reach succeeds.
    pub open spec fn attempts_from(self, k: nat, failures: Seq<ErrorClass>) -> nat
        decreases failures.len(),
    {
        if failures.len() == 0 || self.decide(k, failures[0]) is GiveUp {
            1
        } else {
            1 + self.attempts_from(k + 1, failures.drop_first())
        }
    }

    /// The number of attempts made for a call whose attempts fail with the
    /// classes in `failures`.
    pub open spec fn attempts(self, failures: Seq<ErrorClass>) -> nat {
        self.attempts_from(0, failures)
    }

    /// `failures` is what a call records that was retried `retries` times:
    /// each failure but the last one recorded was retryable and its wait
    /// fitted; on success every recorded failure was retried, otherwise the
    /// last one ended the call.
    pub open spec fn records(self, failures: Seq<ErrorClass>, retries: nat, succeeded: bool) -> bool {
        &&& forall|i: int|
            0 <= i < retries ==> i < failures.len() && failures[i] == ErrorClass::Retryable
                && self.can_wait(i as nat)
        &&& succeeded ==> failures.len() == retries
        &&& !succeeded ==> failures.len() == retries + 1 && self.decide(
            retries,
            failures[retries as int],
        ) is GiveUp
    }
}

/// Every wait of a valid policy is at least one millisecond and at most the
/// interval cap.
pub proof fn lemma_interval_bounds(p: PolicyModel, k: nat)
    requires
        p.valid(),
    ensures
        1 <= p.interval(k) <= p.max_interval,
    decreases k,
{
    if k > 0 {
        let prev = p.interval((k - 1) as nat);
        lemma_interval_bounds(p, (k - 1) as nat);
        lemma_grow_bounds(p, prev);
    }
}

/// Growing a wait that is within the cap gives a wait that is no shorter and
/// still within the cap.
pub proof fn lemma_grow_bounds(p: PolicyModel, current: nat)
    requires
        p.valid(),
        current <= p.max_interval,
    ensures
        current <= p.grow(current) <= p.max_interval,
{
    let m = p.multiplier_permille;
    assert(current * 1000 <= current * m) by (nonlinear_arith)
        requires
            1000 <= m,
    ;
    assert(current * 1000 / 1000 == current) by (nonlinear_arith);
    assert(current * 1000 / 1000 <= current * m / 1000) by (nonlinear_arith)
        requires
            current * 1000 <= current * m,
    ;
}

/// The waits of a valid policy never shrink: a later wait is at least as long
/// as an earlier one.
pub proof fn lemma_interval_monotone(p: PolicyModel, i: nat, j: nat)
    requires
        p.valid(),
        i <= j,
    ensures
        p.interval(i) <= p.interval(j),
    decreases j,
{
    if i < j {
        lemma_interval_monotone(p, i, (j - 1) as nat);
        lemma_interval_bounds(p, (j - 1) as nat);
        lemma_grow_bounds(p, p.interval((j - 1) as nat));
    }
}

/// The time waited grows with each retry, by at least one millisecond.
pub proof fn lemma_total_wait_grows(p: PolicyModel, k: nat)
    requires
        p.valid(),
    ensures
        k <= p.total_wait(k),
        p.total_wait(k) < p.total_wait(k + 1),
    decreases k,
{
    lemma_interval_bounds(p, k);
    if k > 0 {
        lemma_total_wait_grows(p, (k - 1) as nat);
    }
}

/// Once a wait no longer fits in the elapsed-time limit, no later one does:
/// from then on every failure ends the call.
pub proof fn exhaustion_is_final(p: PolicyModel, i: nat, j: nat, class: ErrorClass)
    requires
        p.valid(),
        i <= j,
        !p.can_wait(i),
    ensures
        !p.can_wait(j),
        p.decide(j, class) is GiveUp,
    decreases j - i,
{
    if i < j {
        lemma_interval_monotone(p, i, i + 1);
        lemma_interval_bounds(p, i);
        exhaustion_is_final(p, i + 1, j, class);
    }
}

/// A record of `retries` retries, of which the elapsed-time limit is counted
/// from retry number `k`, accounts for `retries + 1` attempts.
pub proof fn lemma_attempts_of_record(
    p: PolicyModel,
    k: nat,
    failures: Seq<ErrorClass>,
    retries: nat,
    succeeded: bool,
)
    requires
        forall|i: int|
            0 <= i < retries ==> i < failures.len() && failures[i] == ErrorClass::Retryable
                && p.can_wait((k + i) as nat),
        succeeded ==> failures.len() == retries,
        !succeeded ==> failures.len() == retries + 1 && p.decide(
            k + retries,
            failures[retries as int],
        ) is GiveUp,
    ensures
        p.attempts_from(k, failures) == retries + 1,
    decreases retries,
{
    if retries > 0 {
        let rest = failures.drop_first();
        assert(failures[0] == ErrorClass::Retryable && p.can_wait((k + 0) as nat));
        assert forall|i: int| 0 <= i < retries - 1 implies i < rest.len() && rest[i]
            == ErrorClass::Retryable && p.can_wait((k + 1 + i) as nat) by {
            assert(rest[i] == failures[i + 1]);
            assert(p.can_wait((k + (i + 1)) as nat));
        }
        if !succeeded {
            assert(rest[(retries - 1) as int] == failures[retries as int]);
        }
        lemma_attempts_of_record(p, k + 1, rest, (retries - 1) as nat, succeeded);
    }
}

/// A call whose first attempt fails with a retryable error is tried at least
/// twice, unless the elapsed-time limit is smaller than the initial interval:
/// then it is tried once.
pub proof fn retryable_failure_is_retried(p: PolicyModel, failures: Seq<ErrorClass>)
    requires
        p.valid(),
        failures.len() > 0,
        failures[0] == ErrorClass::Retryable,
    ensures
        p.max_elapsed_time >= p.initial_interval ==> p.attempts(failures) >= 2,
        p.max_elapsed_time < p.initial_interval ==> p.attempts(failures) == 1,
{
    assert(p.total_wait(0) == 0);
    assert(p.interval(0) == p.initial_interval);
    lemma_attempts_bounded_from(p, 1, failures.drop_first());
}

/// A fatal error ends the call: no attempt follows the first attempt that
/// fails fatally. A call whose first attempt fails fatally is tried exactly
/// once.
pub proof fn fatal_failure_ends_call(p: PolicyModel, failures: Seq<ErrorClass>, i: int)
    requires
        0 <= i < failures.len(),
        failures[i] == ErrorClass::Fatal,
    ensures
        1 <= p.attempts(failures) <= i + 1,
        i == 0 ==> p.attempts(failures) == 1,
{
    lemma_fatal_bounds_attempts(p, 0, failures, i);
}

/// From any number of retries on, a fatal failure at position `i` lets at
/// most `i + 1` attempts be made.
pub proof fn lemma_fatal_bounds_attempts(p: PolicyModel, k: nat, failures: Seq<ErrorClass>, i: int)
    requires
        0 <= i < failures.len(),
        failures[i] == ErrorClass::Fatal,
    ensures
        1 <= p.attempts_from(k, failures) <= i + 1,
    decreases failures.len(),
{
    if i > 0 && !(p.decide(k, failures[0]) is GiveUp) {
        let rest = failures.drop_first();
        assert(rest[i - 1] == failures[i]);
        lemma_fatal_bounds_attempts(p, k + 1, rest, i - 1);
    }
}

/// Successive waits never shrink and none exceeds the interval cap.
pub proof fn waits_grow_up_to_cap(p: PolicyModel, k: nat)
    requires
        p.valid(),
    ensures
        p.interval(k) <= p.interval(k + 1),
        p.interval(k) <= p.max_interval,
{
    lemma_interval_monotone(p, k, k + 1);
    lemma_interval_bounds(p, k);
}

/// The waits that a call was granted sum to no more than the elapsed-time
/// limit, whether the call went on to succeed or was given up.
pub proof fn waits_stay_within_limit(
    p: PolicyModel,
    failures: Seq<ErrorClass>,
    retries: nat,
    succeeded: bool,
)
    requires
        p.valid(),
        p.records(failures, retries, succeeded),
    ensures
        p.total_wait(retries) <= p.max_elapsed_time,
{
    if retries > 0 {
        let last = retries - 1;
        assert(failures[last] == ErrorClass::Retryable && p.can_wait(last as nat));
    }
}

/// However long the failures last, a call is tried at most once per
/// millisecond of the elapsed-time limit, and once more.
pub proof fn attempts_are_bounded(p: PolicyModel, failures: Seq<ErrorClass>)
    requires
        p.valid(),
    ensures
        1 <= p.attempts(failures) <= p.max_elapsed_time + 1,
{
    lemma_attempts_bounded_from(p, 0, failures);
}

/// After `k` retries at most as many attempts follow as milliseconds are
/// left of the elapsed-time limit, and one more.
pub proof fn lemma_attempts_bounded_from(p: PolicyModel, k: nat, failures: Seq<ErrorClass>)
    requires
        p.valid(),
    ensures
        1 <= p.attempts_from(k, failures),
        k <= p.max_elapsed_time ==> p.attempts_from(k, failures) + k <= p.max_elapsed_time + 1,
        k > p.max_elapsed_time ==> p.attempts_from(k, failures) == 1,
    decreases failures.len(),
{
    lemma_total_wait_grows(p, k);
    lemma_interval_bounds(p, k);
    if failures.len() > 0 && !(p.decide(k, failures[0]) is GiveUp) {
        lemma_attempts_bounded_from(p, k + 1, failures.drop_first());
    }
}

/// The growth of the wait that [`RetryPolicy::default`] sets, in per mille.
pub const DEFAULT_MULTIPLIER_PERMILLE: u64 = 1500;

/// The configuration of the retries of one call: immutable, and valid by
/// construction.
#[derive(Clone, Copy, Debug)]
pub struct RetryPolicy {
    initial_interval: u64,
    multiplier_permille: u64,
    max_interval: u64,
    max_elapsed_time: u64,
}

impl View for RetryPolicy {
    type V = PolicyModel;

    closed spec fn view(&self) -> PolicyModel {
        PolicyModel {
            initial_interval: self.initial_interval as nat,
            multiplier_permille: self.multiplier_permille as nat,
            max_interval: self.max_interval as nat,
            max_elapsed_time: self.max_elapsed_time as nat,
        }
    }
}

/// `backoff::ExponentialBackoff::default()`, read in whole milliseconds: the
/// initial interval, the interval cap and the elapsed-time limit of the
/// policy that the crate builds by default, which are 500 ms, one minute and
/// fifteen minutes.
#[verifier::external_body]
fn backoff_default_millis() -> (r: (u64, u64, Option<u64>))
    ensures
        r == (500u64, 60_000u64, Some(900_000u64)),
{
    let b = backoff::ExponentialBackoff::default();
    let limit = match b.max_elapsed_time {
        Some(d) => Some(d.as_millis() as u64),
        None => None,
    };
    (b.initial_interval.as_millis() as u64, b.max_interval.as_millis() as u64, limit)
}

impl RetryPolicy {
    #[verifier::type_invariant]
    closed spec fn well_formed(self) -> bool {
        self@.valid()
    }

    /// A policy with the given durations, in milliseconds, and the given
    /// growth of the wait, in per mille (1500 makes each wait half as long
    /// again as the one before). The numbers are refused when the initial
    /// interval is zero, when the multiplier would shrink the wait, or when
    /// the cap is below the initial interval, in this order.
    pub fn new(
        initial_interval: u64,
        multiplier_permille: u64,
        max_interval: u64,
        max_elapsed_time: u64,
    ) -> (r: Result<RetryPolicy, PolicyError>)
        ensures
            match r {
                Ok(p) => {
                    &&& p@.valid()
                    &&& p@ == (PolicyModel {
                        initial_interval: initial_interval as nat,
                        multiplier_permille: multiplier_permille as nat,
                        max_interval: max_interval as nat,
                        max_elapsed_time: max_elapsed_time as nat,
                    })
                },
                Err(PolicyError::ZeroInitialInterval) => initial_interval == 0,
                Err(PolicyError::ShrinkingMultiplier) => initial_interval != 0 && multiplier_permille
                    < 1000,
                Err(PolicyError::CapBelowInitialInterval) => initial_interval != 0
                    && multiplier_permille >= 1000 && max_interval < initial_interval,
            },
    {
        if initial_interval == 0 {
            Err(PolicyError::ZeroInitialInterval)
        } else if multiplier_permille < 1000 {
            Err(PolicyError::ShrinkingMultiplier)
        } else if max_interval < initial_interval {
            Err(PolicyError::CapBelowInitialInterval)
        } else {
            Ok(RetryPolicy { initial_interval, multiplier_permille, max_interval, max_elapsed_time })
        }
    }

    /// The wait before the first retry, in milliseconds.
    pub fn initial_interval(&self) -> (r: u64)
        ensures
            r == self@.initial_interval,
            self@.valid(),
    {
        proof {
            use_type_invariant(self);
        }
        self.initial_interval
    }

    /// The growth of the wait from one retry to the next, in per mille.
    pub fn multiplier_permille(&self) -> (r: u64)
        ensures
            r == self@.multiplier_permille,
            self@.valid(),
    {
        proof {
            use_type_invariant(self);
        }
        self.multiplier_permille
    }

    /// The longest single wait, in milliseconds.
    pub fn max_interval(&self) -> (r: u64)
        ensures
            r == self@.max_interval,
            self@.valid(),
    {
        proof {
            use_type_invariant(self);
        }
        self.max_interval
    }

    /// The limit on the sum of all waits of one call, in milliseconds.
    pub fn max_elapsed_time(&self) -> (r: u64)
        ensures
            r == self@.max_elapsed_time,
            self@.valid(),
    {
        proof {
            use_type_invariant(self);
        }
        self.max_elapsed_time
    }

    /// The wait that follows a wait of `current` milliseconds: `current`
    /// times the multiplier, rounded down, or the cap where that is less.
    pub fn next_interval(&self, current: u64) -> (r: u64)
        ensures
            r == self@.grow(current as nat),
    {
        proof {
            use_type_invariant(self);
        }
        let wide: u128 = current as u128;
        let factor: u128 = self.multiplier_permille as u128;
        assert(wide * factor <= 0xffff_ffff_ffff_ffff * 0xffff_ffff_ffff_ffff) by (nonlinear_arith)
            requires
                0 <= wide <= 0xffff_ffff_ffff_ffff,
                0 <= factor <= 0xffff_ffff_ffff_ffff,
        ;
        let scaled: u128 = wide * factor / 1000;
        if scaled <= self.max_interval as u128 {
            scaled as u64
        } else {
            self.max_interval
        }
    }
}

impl Default for RetryPolicy {
    /// The policy of the `backoff` crate's default: waits of 500 ms that grow
    /// by half up to one minute, within fifteen minutes in all.
    fn default() -> (p: RetryPolicy)
        ensures
            p@ == PolicyModel::standard(),
            p@.valid(),
    {
        let (initial_interval, max_interval, limit) = backoff_default_millis();
        RetryPolicy {
            initial_interval,
            multiplier_permille: DEFAULT_MULTIPLIER_PERMILLE,
            max_interval,
            max_elapsed_time: limit.unwrap(),
        }
    }
}

/// The mathematical content of a [`Retrier`]: its policy and the number of
/// retries it has granted.
pub struct RetrierModel {
    pub policy: PolicyModel,
    pub retries: nat,
}

impl RetrierModel {
    /// The time waited so far: the sum of the waits granted.
    pub open spec fn waited(self) -> nat {
        self.policy.total_wait(self.retries)
    }
}

/// The retry state of one call: decides, failure by failure, whether the
/// call is tried again and after what wait.
#[derive(Debug)]
pub struct Retrier {
    policy: RetryPolicy,
    retries: u64,
    waited: u64,
    interval: u64,
}

impl View for Retrier {
    type V = RetrierModel;

    closed spec fn view(&self) -> RetrierModel {
        RetrierModel { policy: self.policy@, retries: self.retries as nat }
    }
}

impl Retrier {
    #[verifier::type_invariant]
    closed spec fn well_formed(self) -> bool {
        &&& self.policy@.valid()
        &&& self.waited == self.policy@.total_wait(self.retries as nat)
        &&& self.interval == self.policy@.interval(self.retries as nat)
        &&& self.waited <= self.policy@.max_elapsed_time
    }

    /// The state before the first attempt: nothing granted, nothing waited.
    pub fn new(policy: RetryPolicy) -> (r: Retrier)
        ensures
            r@ == (RetrierModel { policy: policy@, retries: 0 }),
            policy@.valid(),
    {
        let interval = policy.initial_interval();
        Retrier { policy, retries: 0, waited: 0, interval }
    }

    /// The policy that this state follows.
    pub fn policy(&self) -> (p: RetryPolicy)
        ensures
            p@ == self@.policy,
            p@.valid(),
    {
        proof {
            use_type_invariant(self);
        }
        self.policy
    }

    /// The number of retries granted so far.
    pub fn retries(&self) -> (n: u64)
        ensures
            n == self@.retries,
    {
        self.retries
    }

    /// The sum of the waits granted so far, in milliseconds. It never exceeds
    /// the policy's elapsed-time limit.
    pub fn waited(&self) -> (ms: u64)
        ensures
            ms == self@.waited(),
            ms <= self@.policy.max_elapsed_time,
    {
        proof {
            use_type_invariant(self);
        }
        self.waited
    }

    /// Takes note of a failed attempt and decides what follows. A fatal
    /// failure ends the call. A retryable one is retried after the current
    /// wait if that wait still fits in the elapsed-time limit, and ends the
    /// call otherwise. Only a granted retry changes the state.
    pub fn on_failure(&mut self, class: ErrorClass) -> (decision: RetryDecision)
        ensures
            decision == old(self)@.policy.decide(old(self)@.retries, class),
            final(self)@.policy == old(self)@.policy,
            final(self)@.retries == old(self)@.retries + (if decision is GiveUp {
                0nat
            } else {
                1nat
            }),
            old(self)@.policy.valid(),
    {
        proof {
            use_type_invariant(&*self);
            lemma_interval_bounds(self.policy@, self.retries as nat);
            lemma_total_wait_grows(self.policy@, self.retries as nat);
        }
        match class {
            ErrorClass::Fatal => RetryDecision::GiveUp,
            ErrorClass::Retryable => {
                let room = self.policy.max_elapsed_time() - self.waited;
                if self.interval <= room {
                    let granted = self.interval;
                    let next = self.policy.next_interval(granted);
                    *self = Retrier {
                        policy: self.policy,
                        retries: self.retries + 1,
                        waited: self.waited + granted,
                        interval: next,
                    };
                    RetryDecision::RetryAfter(granted)
                } else {
                    RetryDecision::GiveUp
                }
            },
        }
    }
}

/// How a retried call ended.
#[derive(Debug)]
pub struct RunReport<T, E> {
    /// What the last attempt returned.
    pub result: Result<T, E>,
    /// The number of retries: one less than the number of attempts.
    pub retries: u64,
    /// The sum of the waits between the attempts, in milliseconds.
    pub waited: u64,
    /// The class of each failed attempt, in order.
    pub failures: Vec<ErrorClass>,
}

/// `operation` can fail with an error that `classify` puts in this class.
pub open spec fn can_fail_as<T, E, Op, Cl>(
    operation: Op,
    classify: Cl,
    class: ErrorClass,
) -> bool where Op: Fn() -> Result<T, E>, Cl: Fn(&E) -> ErrorClass {
    exists|error: E|
        operation.ensures((), Err::<T, E>(error)) && #[trigger] classify.ensures((&error,), class)
}

/// `sleep` has returned from the wait before retry number `k + 1`.
pub open spec fn slept<Sl>(sleep: Sl, policy: PolicyModel, k: nat) -> bool where Sl: Fn(u64) {
    sleep.ensures((policy.interval(k) as u64,), ())
}

/// Runs `operation` until it succeeds, fails fatally, or the policy grants no
/// further wait. Each error is classified by `classify`; after a retryable
/// one `sleep` is called with the wait in milliseconds before the next
/// attempt. The report holds the result of the last attempt and a record of
/// the failures that led to it; `sleep` has returned from each of the waits
/// that the record counts.
pub fn run<T, E, Op, Cl, Sl>(
    operation: Op,
    policy: RetryPolicy,
    classify: Cl,
    sleep: Sl,
) -> (report: RunReport<T, E>) where
    Op: Fn() -> Result<T, E>,
    Cl: Fn(&E) -> ErrorClass,
    Sl: Fn(u64),

    requires
        operation.requires(()),
        forall|e: &E| classify.requires((e,)),
        forall|ms: u64| 1 <= ms <= policy@.max_interval ==> sleep.requires((ms,)),
    ensures
        operation.ensures((), report.result),
        report.result matches Err(e) ==> classify.ensures((&e,), report.failures@.last()),
        forall|i: int|
            0 <= i < report.failures@.len() ==> can_fail_as(
                operation,
                classify,
                #[trigger] report.failures@[i],
            ),
        policy@.records(report.failures@, report.retries as nat, report.result is Ok),
        forall|k: nat| k < report.retries ==> #[trigger] slept(sleep, policy@, k),
        report.retries + 1 == policy@.attempts(report.failures@),
        report.waited == policy@.total_wait(report.retries as nat),
        report.waited <= policy@.max_elapsed_time,
{
    let mut retrier = Retrier::new(policy);
    let mut failures: Vec<ErrorClass> = Vec::new();
    loop
        invariant
            operation.requires(()),
            forall|e: &E| classify.requires((e,)),
            forall|ms: u64| 1 <= ms <= policy@.max_interval ==> sleep.requires((ms,)),
            policy@.valid(),
            retrier@.policy == policy@,
            failures@.len() == retrier@.retries,
            retrier@.waited() <= policy@.max_elapsed_time,
            forall|i: int|
                0 <= i < failures@.len() ==> failures@[i] == ErrorClass::Retryable
                    && policy@.can_wait(i as nat),
            forall|i: int|
                0 <= i < failures@.len() ==> can_fail_as(operation, classify, #[trigger] failures@[i]),
            forall|k: nat| k < failures@.len() ==> #[trigger] slept(sleep, policy@, k),
        decreases policy@.max_elapsed_time - retrier@.waited(),
    {
        let retries = retrier.retries();
        let waited = retrier.waited();
        let outcome = operation();
        match outcome {
            Ok(value) => {
                proof {
                    lemma_attempts_of_record(policy@, 0, failures@, retries as nat, true);
                }
                return RunReport { result: Ok(value), retries, waited, failures };
            },
            Err(error) => {
                let class = classify(&error);
                failures.push(class);
                assert(can_fail_as(operation, classify, class)) by {
                    assert(operation.ensures((), Err::<T, E>(error)));
                    assert(classify.ensures((&error,), class));
                }
                match retrier.on_failure(class) {
                    RetryDecision::GiveUp => {
                        proof {
                            lemma_attempts_of_record(policy@, 0, failures@, retries as nat, false);
                        }
                        return RunReport { result: Err(error), retries, waited, failures };
                    },
                    RetryDecision::RetryAfter(ms) => {
                        proof {
                            lemma_interval_bounds(policy@, retries as nat);
                            lemma_total_wait_grows(policy@, retries as nat);
                        }
                        sleep(ms);
                        assert(slept(sleep, policy@, retries as nat));
                    },
                }
            },
        }
    }
}

} // verus!
