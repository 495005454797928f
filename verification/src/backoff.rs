use vstd::arithmetic::power2::{lemma2_to64, lemma_pow2_strictly_increases, lemma_pow2_unfold, pow2};
use vstd::prelude::*;

verus! {

/// Nanoseconds in one second.
pub const NANOS_PER_SEC: u32 = 1_000_000_000;

/// A span of time in whole seconds and nanoseconds, as `std::time::Duration`
/// keeps it.
#[derive(Debug, Clone, Copy, PartialEq, Eq, Structural)]
pub struct Delay {
    /// Whole seconds.
    pub secs: u64,
    /// Nanoseconds past the whole seconds.
    pub nanos: u32,
}

/// The longest span a `Delay` (and a `Duration`) can hold, in nanoseconds.
pub open spec fn max_delay_nanos() -> int {
    (u64::MAX as int + 1) * NANOS_PER_SEC as int - 1
}

impl Delay {
    /// The span in nanoseconds.
    pub open spec fn total_nanos(self) -> int {
        self.secs as int * NANOS_PER_SEC as int + self.nanos as int
    }

    /// The nanosecond part is below one second.
    pub open spec fn is_valid(self) -> bool {
        self.nanos < NANOS_PER_SEC
    }
}

/// The delay that spans `n` nanoseconds.
pub open spec fn delay_of_nanos(n: int) -> Delay {
    Delay { secs: (n / NANOS_PER_SEC as int) as u64, nanos: (n % NANOS_PER_SEC as int) as u32 }
}

/// The multiple of the base delay waited before reconnect attempt `attempt`
/// (counted from 1): `2^(attempt - 1)`, capped at five. There is no wait
/// before attempt 0, which never happens.
pub open spec fn backoff_factor(attempt: u32) -> int {
    if attempt == 0 {
        0
    } else if pow2((attempt - 1) as nat) < 5 {
        pow2((attempt - 1) as nat) as int
    } else {
        5
    }
}

/// The multiple of the base delay waited before reconnect attempt `attempt`:
/// 1, 2, 4, then 5 from the fourth attempt on.
pub fn backoff_multiplier(attempt: u32) -> (factor: u32)
    ensures
        factor == backoff_factor(attempt),
{
    proof {
        lemma2_to64();
        if attempt > 4 {
            lemma_pow2_strictly_increases(3, (attempt - 1) as nat);
        }
    }
    if attempt == 0 {
        0
    } else if attempt == 1 {
        1
    } else if attempt == 2 {
        2
    } else if attempt == 3 {
        4
    } else {
        5
    }
}

/// The wait before reconnect attempt `attempt`, in nanoseconds.
pub open spec fn backoff_nanos(base: Delay, attempt: u32) -> int {
    base.total_nanos() * backoff_factor(attempt)
}

/// The wait before reconnect attempt `attempt` has a representable length.
pub open spec fn backoff_fits(base: Delay, attempt: u32) -> bool {
    backoff_nanos(base, attempt) <= max_delay_nanos()
}

proof fn lemma_delay_of_nanos(n: int)
    requires
        0 <= n <= max_delay_nanos(),
    ensures
        delay_of_nanos(n).is_valid(),
        delay_of_nanos(n).total_nanos() == n,
{
    let q = n / NANOS_PER_SEC as int;
    let r = n % NANOS_PER_SEC as int;
    assert(q * 1_000_000_000 + r == n && 0 <= r < 1_000_000_000) by (nonlinear_arith)
        requires
            q == n / 1_000_000_000,
            r == n % 1_000_000_000,
    ;
    assert(0 <= q <= u64::MAX) by (nonlinear_arith)
        requires
            q == n / 1_000_000_000,
            0 <= n <= (u64::MAX as int + 1) * 1_000_000_000 - 1,
    ;
}

/// The wait before reconnect attempt `attempt`: the base delay times
/// `2^(attempt - 1)`, capped at five times the base delay.
pub fn backoff_delay(base: Delay, attempt: u32) -> (delay: Delay)
    requires
        base.is_valid(),
        backoff_fits(base, attempt),
    ensures
        delay.is_valid(),
        delay.total_nanos() == backoff_nanos(base, attempt),
        delay == delay_of_nanos(backoff_nanos(base, attempt)),
{
    let factor: u128 = backoff_multiplier(attempt) as u128;
    let total: u128 = base.secs as u128 * 1_000_000_000u128 + base.nanos as u128;
    assert(total == base.total_nanos());
    assert(total * factor <= max_delay_nanos());
    assert(0 <= total * factor) by (nonlinear_arith)
        requires
            0 <= total,
            0 <= factor,
    ;
    let product: u128 = total * factor;
    let secs: u128 = product / 1_000_000_000u128;
    let nanos: u128 = product % 1_000_000_000u128;
    proof {
        lemma_delay_of_nanos(product as int);
    }
    Delay { secs: secs as u64, nanos: nanos as u32 }
}

/// The waits grow with the attempt number and never exceed five times the
/// base delay; up to the third attempt the wait is `2^(attempt - 1)` times
/// the base delay.
pub proof fn lemma_backoff_grows_and_is_capped(base: Delay, a: u32, b: u32)
    requires
        1 <= a <= b,
    ensures
        backoff_nanos(base, a) <= backoff_nanos(base, b),
        backoff_nanos(base, b) <= 5 * base.total_nanos(),
        a <= 3 ==> backoff_nanos(base, a) == pow2((a - 1) as nat) * base.total_nanos(),
        backoff_nanos(base, b) >= base.total_nanos(),
{
    lemma2_to64();
    let t = base.total_nanos();
    assert(t >= 0);
    if a < b {
        lemma_pow2_strictly_increases((a - 1) as nat, (b - 1) as nat);
    }
    if a > 3 {
        lemma_pow2_strictly_increases(2, (a - 1) as nat);
    }
    let fa = backoff_factor(a);
    let fb = backoff_factor(b);
    assert(1 <= fa <= fb <= 5);
    assert(t * fa == fa * t) by (nonlinear_arith);
    assert(t * fa <= t * fb <= t * 5 && t * fb >= t) by (nonlinear_arith)
        requires
            t >= 0,
            1 <= fa <= fb <= 5,
    ;
}

/// Each wait is twice the one before, until it reaches five times the base
/// delay.
pub proof fn lemma_backoff_doubles(a: u32)
    requires
        1 <= a < u32::MAX,
    ensures
        backoff_factor((a + 1) as u32) == if 2 * backoff_factor(a) < 5 {
            2 * backoff_factor(a)
        } else {
            5
        },
{
    lemma_pow2_unfold(a as nat);
    assert(((a + 1) as u32 - 1) as nat == a as nat);
    assert((a - 1) as nat == (a as nat - 1) as nat);
}

} // verus!
