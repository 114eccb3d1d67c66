//! Retry backoff: capped exponential growth with full jitter.
//!
//! ```text
//! cap(n) = min(max_delay, base_delay * multiplier^(n - 1))
//! delay  = uniform(0, cap(n))
//! ```

use crate::time::{max_nanos, Duration};
use rand::rngs::StdRng;
use rand::Rng;
use vstd::arithmetic::power::{
    lemma0_pow, lemma1_pow, lemma_pow0, lemma_pow1, lemma_pow_adds, lemma_pow_increases,
    lemma_pow_positive, pow,
};
use vstd::prelude::*;

verus! {

#[derive(Debug, Clone, Copy, PartialEq, Eq)]
pub struct RetryPolicy {
    pub base_delay: Duration,
    pub multiplier: u32,
    pub max_delay: Duration,
}

pub open spec fn least(a: int, b: int) -> int {
    if a <= b { a } else { b }
}

/// `base` to the power of `exponent`, at most the largest `u32`.
pub open spec fn capped_power(base: nat, exponent: nat) -> nat {
    least(pow(base as int, exponent), u32::MAX as int) as nat
}

impl RetryPolicy {
    /// The longest delay in nanoseconds after failed attempt number `n`, counted from one: the
    /// base delay times the multiplier to the power of `n - 1`, at most the maximal delay. The
    /// power stops at the largest `u32` and the product at the longest span.
    pub open spec fn cap_nanos(self, attempt_number: u32) -> nat {
        let exponent = if attempt_number == 0 { 0nat } else { (attempt_number - 1) as nat };
        let scaled = self.base_delay@ * capped_power(self.multiplier as nat, exponent);
        least(least(scaled as int, max_nanos() as int), self.max_delay@ as int) as nat
    }

    /// One second, doubling, up to a minute.
    pub fn default_policy() -> (p: RetryPolicy)
        ensures
            p.base_delay@ == 1_000_000_000,
            p.multiplier == 2,
            p.max_delay@ == 60_000_000_000,
    {
        RetryPolicy {
            base_delay: Duration::from_secs(1),
            multiplier: 2,
            max_delay: Duration::from_secs(60),
        }
    }

    /// The longest delay after failed attempt `attempt_number`.
    pub fn cap(&self, attempt_number: u32) -> (d: Duration)
        ensures
            d@ == self.cap_nanos(attempt_number),
    {
        let exponent: u32 = attempt_number.saturating_sub(1);
        let multiplier_pow: u32 = saturating_pow(self.multiplier, exponent);
        let scaled = self.base_delay.saturating_mul(multiplier_pow);
        scaled.min(self.max_delay)
    }

    /// The range that the jitter is drawn from: whole milliseconds from zero up to the cap, both
    /// included. `None` where the cap is zero and nothing is drawn.
    pub open spec fn jitter_range(self, attempt_number: u32) -> Option<u64> {
        let cap = self.cap_nanos(attempt_number);
        if cap == 0 {
            None
        } else {
            Some(least((cap / 1_000_000) as int, u64::MAX as int) as u64)
        }
    }

    /// The upper end of the jitter, in milliseconds, if any is to be drawn.
    pub fn jitter_bound(&self, attempt_number: u32) -> (b: Option<u64>)
        ensures
            b == self.jitter_range(attempt_number),
    {
        let cap = self.cap(attempt_number);
        if cap.is_zero() {
            return None;
        }
        let millis: u128 = cap.as_millis();
        if millis > u64::MAX as u128 {
            Some(u64::MAX)
        } else {
            Some(millis as u64)
        }
    }

    /// The delay in nanoseconds after failed attempt `attempt_number`, and what the generator holds
    /// afterwards. Where the cap is zero nothing is drawn.
    pub open spec fn delay_from(self, attempt_number: u32, state: Seq<u32>) -> (nat, Seq<u32>) {
        match self.jitter_range(attempt_number) {
            Some(bound) => {
                let (millis, after) = drawn(state, bound);
                ((millis * 1_000_000) as nat, after)
            },
            None => (0, state),
        }
    }

    /// The delay that a drawn jitter stands for; no delay where none was drawn.
    pub fn delay_of_jitter(jitter_millis: Option<u64>) -> (d: Duration)
        ensures
            d@ == match jitter_millis {
                Some(millis) => millis * 1_000_000,
                None => 0,
            },
    {
        match jitter_millis {
            Some(millis) => Duration::from_millis(millis),
            None => Duration::zero(),
        }
    }

    /// A delay with full jitter after failed attempt `attempt_number`: drawn from the whole
    /// milliseconds between zero and the cap.
    pub fn delay(&self, attempt_number: u32, rng: &mut StdRng) -> (d: Duration)
        ensures
            (d@, generator_state(*final(rng))) == self.delay_from(
                attempt_number,
                generator_state(*old(rng)),
            ),
            d@ <= self.cap_nanos(attempt_number),
            d@ % 1_000_000 == 0,
            self.cap_nanos(attempt_number) == 0 ==> *final(rng) == *old(rng),
    {
        match self.jitter_bound(attempt_number) {
            Some(bound) => Self::delay_of_jitter(Some(draw_up_to(rng, bound))),
            None => Self::delay_of_jitter(None),
        }
    }
}

/// A random number generator of the `rand` crate.
#[verifier::external_type_specification]
#[verifier::external_body]
pub struct ExStdRng(StdRng);

/// What a generator holds, as a sequence of numbers: its key, its counters and the numbers it has ready.
/// What it draws depends on nothing else.
pub uninterp spec fn generator_state(rng: StdRng) -> Seq<u32>;

/// The number that `Rng::gen_range` draws between zero and `bound` from a generator that holds `state`,
/// and what the generator holds afterwards.
pub uninterp spec fn drawn(state: Seq<u32>, bound: u64) -> (u64, Seq<u32>);

/// Calls `Rng::gen_range` with the range from zero to `bound`, both included. The result lies in
/// that range. It, and what becomes of the generator, are a function of the bound and of what the
/// generator holds, which `drawn` names; which number comes is left open.
#[verifier::external_body]
fn draw_up_to(rng: &mut StdRng, bound: u64) -> (n: u64)
    ensures
        n <= bound,
        (n, generator_state(*final(rng))) == drawn(generator_state(*old(rng)), bound),
{
    rng.gen_range(0..=bound)
}

/// `base` to the power of `exponent`, or the largest `u32` where that is smaller.
pub fn saturating_pow(base: u32, exponent: u32) -> (r: u32)
    ensures
        r == capped_power(base as nat, exponent as nat),
{
    let mut result: u32 = 1;
    let mut i: u32 = 0;
    proof {
        lemma_pow0(base as int);
        if exponent > 0 {
            lemma0_pow(exponent as nat);
        }
        lemma1_pow(exponent as nat);
    }
    if base <= 1 {
        // No power of zero or one is larger; there is nothing to multiply.
        return if exponent == 0 {
            1
        } else {
            base
        };
    }
    while i < exponent
        invariant
            base >= 1,
            i <= exponent,
            result == pow(base as int, i as nat),
        decreases exponent - i,
    {
        proof {
            lemma_pow_adds(base as int, i as nat, 1);
            lemma_pow1(base as int);
        }
        match result.checked_mul(base) {
            Some(next) => {
                result = next;
            }
            None => {
                proof {
                    lemma_pow_increases(base as nat, (i + 1) as nat, exponent as nat);
                }
                return u32::MAX;
            }
        }
        i = i + 1;
    }
    result
}

/// The delays `delays` come of asking for the attempts `attempts`, one after the other, with a generator
/// that goes through the states `states`.
pub open spec fn is_run_of_delays(
    policy: RetryPolicy,
    attempts: Seq<u32>,
    states: Seq<Seq<u32>>,
    delays: Seq<nat>,
) -> bool {
    &&& delays.len() == attempts.len()
    &&& states.len() == attempts.len() + 1
    &&& forall|i: int|
        0 <= i < attempts.len() ==> (#[trigger] delays[i], states[i + 1]) == policy.delay_from(
            attempts[i],
            states[i],
        )
}

/// The same policy, asked for the same attempts with generators that begin in the same state, gives the
/// same delays.
pub proof fn law_equal_generators_give_equal_delays(
    policy: RetryPolicy,
    attempts: Seq<u32>,
    states_a: Seq<Seq<u32>>,
    delays_a: Seq<nat>,
    states_b: Seq<Seq<u32>>,
    delays_b: Seq<nat>,
)
    requires
        is_run_of_delays(policy, attempts, states_a, delays_a),
        is_run_of_delays(policy, attempts, states_b, delays_b),
        states_a[0] == states_b[0],
    ensures
        delays_a == delays_b,
        states_a == states_b,
    decreases attempts.len(),
{
    if attempts.len() > 0 {
        let n = attempts.len() - 1;
        let first = attempts.drop_last();
        assert forall|i: int| 0 <= i < n implies (
            #[trigger] delays_a.drop_last()[i],
            states_a.drop_last()[i + 1],
        ) == policy.delay_from(first[i], states_a.drop_last()[i]) by {
            assert(delays_a[i] == delays_a.drop_last()[i]);
        }
        assert forall|i: int| 0 <= i < n implies (
            #[trigger] delays_b.drop_last()[i],
            states_b.drop_last()[i + 1],
        ) == policy.delay_from(first[i], states_b.drop_last()[i]) by {
            assert(delays_b[i] == delays_b.drop_last()[i]);
        }
        law_equal_generators_give_equal_delays(
            policy,
            first,
            states_a.drop_last(),
            delays_a.drop_last(),
            states_b.drop_last(),
            delays_b.drop_last(),
        );
        assert(states_a[n] == states_a.drop_last()[n]);
        assert(states_b[n] == states_b.drop_last()[n]);
        assert((delays_a[n], states_a[n + 1]) == policy.delay_from(attempts[n], states_a[n]));
        assert((delays_b[n], states_b[n + 1]) == policy.delay_from(attempts[n], states_b[n]));
        assert(delays_a =~= delays_a.drop_last().push(delays_a[n]));
        assert(delays_b =~= delays_b.drop_last().push(delays_b[n]));
        assert(states_a =~= states_a.drop_last().push(states_a[n + 1]));
        assert(states_b =~= states_b.drop_last().push(states_b[n + 1]));
    } else {
        assert(delays_a =~= delays_b);
        assert(states_a =~= states_b);
    }
}

/// No delay is ever longer than the maximal one.
pub proof fn law_cap_at_most_max_delay(policy: RetryPolicy, attempt_number: u32)
    ensures
        policy.cap_nanos(attempt_number) <= policy.max_delay@,
{
}

/// The first retry waits at most the base delay, where that does not exceed the maximal one.
pub proof fn law_first_cap_is_base_delay(policy: RetryPolicy)
    requires
        policy.base_delay@ <= policy.max_delay@,
        policy.base_delay@ <= max_nanos(),
    ensures
        policy.cap_nanos(1) == policy.base_delay@,
{
    lemma_pow0(policy.multiplier as int);
    let p = capped_power(policy.multiplier as nat, 0);
    assert(policy.base_delay@ * p == policy.base_delay@) by (nonlinear_arith)
        requires
            p == 1,
    ;
}

/// Later attempts wait no less: the cap never shrinks from one attempt to a later one.
pub proof fn law_cap_never_shrinks(policy: RetryPolicy, a: u32, b: u32)
    requires
        policy.multiplier >= 1,
        a <= b,
    ensures
        policy.cap_nanos(a) <= policy.cap_nanos(b),
{
    let ea = if a == 0 { 0nat } else { (a - 1) as nat };
    let eb = if b == 0 { 0nat } else { (b - 1) as nat };
    let m = policy.multiplier as int;
    lemma_pow_increases(m as nat, ea, eb);
    let pa = capped_power(m as nat, ea);
    let pb = capped_power(m as nat, eb);
    lemma_pow_positive(m, ea);
    assert(policy.base_delay@ * pa <= policy.base_delay@ * pb) by (nonlinear_arith)
        requires
            pa <= pb,
    ;
}

/// Below every limit, each attempt multiplies the cap: it is the base delay times the multiplier
/// to the power of the number of attempts before.
pub proof fn law_cap_grows_exponentially(policy: RetryPolicy, attempt_number: u32)
    requires
        attempt_number >= 1,
        pow(policy.multiplier as int, (attempt_number - 1) as nat) <= u32::MAX,
        policy.base_delay@ * pow(policy.multiplier as int, (attempt_number - 1) as nat)
            <= policy.max_delay@,
        policy.max_delay@ <= max_nanos(),
    ensures
        policy.cap_nanos(attempt_number) == policy.base_delay@ * pow(
            policy.multiplier as int,
            (attempt_number - 1) as nat,
        ),
{
    let p = pow(policy.multiplier as int, (attempt_number - 1) as nat);
    lemma_power_not_negative(policy.multiplier as int, (attempt_number - 1) as nat);
    assert(policy.base_delay@ * p >= 0) by (nonlinear_arith)
        requires
            p >= 0,
    ;
}

/// The longest delay is the base delay times the multiplier to the power of the attempts before, unless
/// that exceeds the maximal delay, which is then the longest delay. The power is counted up to the
/// largest `u32`. Attempts are counted from one; attempt zero is as the first.
pub proof fn law_cap_is_the_power_up_to_the_maximum(policy: RetryPolicy, attempt_number: u32)
    requires
        policy.max_delay@ <= max_nanos(),
    ensures
        ({
            let made = if attempt_number == 0 { 0nat } else { (attempt_number - 1) as nat };
            let power = pow(policy.multiplier as int, made);
            let counted = if power <= u32::MAX { power } else { u32::MAX as int };
            let cap = policy.cap_nanos(attempt_number);
            &&& cap <= policy.max_delay@
            &&& cap <= policy.base_delay@ * counted
            &&& cap == policy.max_delay@ || cap == policy.base_delay@ * counted
        }),
        policy.cap_nanos(0) == policy.cap_nanos(1),
{
    let made = if attempt_number == 0 { 0nat } else { (attempt_number - 1) as nat };
    let m = policy.multiplier as int;
    lemma_power_not_negative(m, made);
    let counted = if pow(m, made) <= u32::MAX { pow(m, made) } else { u32::MAX as int };
    assert(capped_power(m as nat, made) == counted);
    assert(policy.base_delay@ * counted >= 0) by (nonlinear_arith)
        requires
            counted >= 0,
    ;
}

/// The jitter is drawn from the whole milliseconds up to the cap: the upper end is less than a
/// millisecond below it. Nothing is drawn if and only if there is no delay at all.
pub proof fn law_jitter_ranges_up_to_the_cap(policy: RetryPolicy, attempt_number: u32)
    ensures
        policy.jitter_range(attempt_number) is None <==> policy.cap_nanos(attempt_number) == 0,
        policy.jitter_range(attempt_number) matches Some(bound) ==> {
            let cap = policy.cap_nanos(attempt_number);
            &&& bound * 1_000_000 <= cap
            &&& cap < bound * 1_000_000 + 1_000_000 || bound == u64::MAX
        },
{
}

/// A delay is the number drawn from that range, in milliseconds, and leaves the generator as drawing
/// it did.
pub proof fn law_delays_are_drawn_from_the_whole_range(
    policy: RetryPolicy,
    attempt_number: u32,
    state: Seq<u32>,
    bound: u64,
)
    requires
        bound * 1_000_000 <= policy.cap_nanos(attempt_number),
        policy.cap_nanos(attempt_number) < bound * 1_000_000 + 1_000_000,
    ensures
        policy.cap_nanos(attempt_number) > 0 ==> {
            &&& policy.delay_from(attempt_number, state).0 == drawn(state, bound).0 * 1_000_000
            &&& policy.delay_from(attempt_number, state).1 == drawn(state, bound).1
        },
        policy.cap_nanos(attempt_number) == 0 ==> policy.delay_from(attempt_number, state) == (
            0nat,
            state,
        ),
{
    law_jitter_ranges_up_to_the_cap(policy, attempt_number);
}

/// A power that is counted up to the largest `u32` multiplies from one exponent to the next, as long as
/// it stays below.
pub proof fn law_powers_multiply_until_they_are_cut_off(base: u32, exponent: nat)
    ensures
        capped_power(base as nat, 0) == 1,
        capped_power(base as nat, exponent) < u32::MAX && capped_power(base as nat, exponent) * base
            <= u32::MAX ==> capped_power(base as nat, exponent + 1) == capped_power(
            base as nat,
            exponent,
        ) * base,
        capped_power(base as nat, exponent) * base > u32::MAX ==> capped_power(
            base as nat,
            exponent + 1,
        ) == u32::MAX,
{
    lemma_pow0(base as int);
    lemma_pow_adds(base as int, exponent, 1);
    lemma_pow1(base as int);
    lemma_power_not_negative(base as int, exponent);
    lemma_power_not_negative(base as int, exponent + 1);
    let p = pow(base as int, exponent);
    assert(pow(base as int, exponent + 1) == p * base);
    if p > u32::MAX {
        if base >= 1 {
            assert(p * base >= p) by (nonlinear_arith)
                requires
                    base >= 1,
                    p >= 0,
            ;
        }
    }
}

proof fn lemma_power_not_negative(base: int, e: nat)
    requires
        base >= 0,
    ensures
        pow(base, e) >= 0,
{
    if base > 0 {
        lemma_pow_positive(base, e);
    } else if e > 0 {
        lemma0_pow(e);
    } else {
        lemma_pow0(base);
    }
}

} // verus!
