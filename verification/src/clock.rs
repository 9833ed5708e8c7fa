//! Points in time and 64-bit time arithmetic.
use std::time::{Duration, Instant};
use vstd::prelude::*;

verus! {

/// A point in time of the monotonic clock, carried as an opaque value.
#[verifier::external_type_specification]
#[verifier::external_body]
pub struct ExInstant(std::time::Instant);

/// The span of time from one point in time to another.
pub uninterp spec fn time_between(since: Instant, now: Instant) -> Duration;

/// The whole milliseconds in a span of time.
pub uninterp spec fn whole_millis(span: Duration) -> u128;

/// `Instant::now` of the standard library. Which point in time it returns depends on the clock.
pub assume_specification[ Instant::now ]() -> (now: Instant)
;

/// `Instant::elapsed` of the standard library: the span of time from the given point to the
/// present. Which point in time is the present depends on the clock.
pub assume_specification[ Instant::elapsed ](since: &Instant) -> (span: Duration)
    ensures
        exists|now: Instant| span == #[trigger] time_between(*since, now),
;

/// `Duration::as_millis` of the standard library: the total number of whole milliseconds.
pub assume_specification[ Duration::as_millis ](span: &Duration) -> (ms: u128)
    ensures
        ms == whole_millis(*span),
;

/// The integer that 64 bits in two's complement stand for, where their unsigned value is `x`
/// modulo 2^64.
pub open spec fn signed64(x: int) -> int {
    let low = x % 0x1_0000_0000_0000_0000;
    if low < 0x8000_0000_0000_0000 {
        low
    } else {
        low - 0x1_0000_0000_0000_0000
    }
}

/// The low 64 bits of `x`.
pub open spec fn unsigned64(x: int) -> int {
    x % 0x1_0000_0000_0000_0000
}

/// Reading 64 bits as a signed number keeps values that fit, and forgets multiples of 2^64.
pub proof fn lemma_signed64(x: int, k: int)
    ensures
        i64::MIN <= x <= i64::MAX ==> signed64(x) == x,
        i64::MIN <= signed64(x) <= i64::MAX,
        signed64(x + k * 0x1_0000_0000_0000_0000) == signed64(x),
{
    vstd::arithmetic::div_mod::lemma_mod_multiples_vanish(k, x, 0x1_0000_0000_0000_0000);
    assert(k * 0x1_0000_0000_0000_0000 == 0x1_0000_0000_0000_0000 * k);
}

/// Signed 64-bit addition may wrap its operands first.
pub proof fn lemma_signed64_sum(a: int, b: int)
    ensures
        signed64(signed64(a) + signed64(b)) == signed64(a + b),
{
    let m: int = 0x1_0000_0000_0000_0000;
    let i = (a - signed64(a)) / m;
    let j = (b - signed64(b)) / m;
    assert(a == signed64(a) + i * m);
    assert(b == signed64(b) + j * m);
    lemma_signed64(signed64(a) + signed64(b), i + j);
    assert((i + j) * m == i * m + j * m) by (nonlinear_arith);
}

/// Signed 64-bit subtraction may wrap its operands first.
pub proof fn lemma_signed64_difference(a: int, b: int)
    ensures
        signed64(signed64(a) - signed64(b)) == signed64(a - b),
{
    let m: int = 0x1_0000_0000_0000_0000;
    let i = (a - signed64(a)) / m;
    let j = (b - signed64(b)) / m;
    assert(a == signed64(a) + i * m);
    assert(b == signed64(b) + j * m);
    lemma_signed64(signed64(a) - signed64(b), i - j);
    assert((i - j) * m == i * m - j * m) by (nonlinear_arith);
}

/// The whole milliseconds from one point in time to another, in 64 bits.
pub open spec fn millis_between(since: Instant, now: Instant) -> int {
    unsigned64(whole_millis(time_between(since, now)) as int)
}

/// Milliseconds since `since`, in 64 bits. Which point in time is the present is up to the clock.
pub(crate) fn elapsed_ms(since: &Instant) -> (ms: u64)
    ensures
        exists|now: Instant| ms == #[trigger] millis_between(*since, now),
{
    let span: Duration = since.elapsed();
    let whole: u128 = span.as_millis();
    let ms: u64 = #[verifier::truncate]
    (whole as u64);
    proof {
        let now = choose|now: Instant| span == #[trigger] time_between(*since, now);
        assert(whole as u64 == whole % 0x1_0000_0000_0000_0000) by (bit_vector);
        assert(ms == millis_between(*since, now));
    }
    ms
}

/// The same 64 bits, read as a signed number.
pub fn as_signed(x: u64) -> (y: i64)
    ensures
        y == signed64(x as int),
{
    if x < 0x8000_0000_0000_0000 {
        x as i64
    } else {
        -((u64::MAX - x) as i64) - 1
    }
}

/// The same 64 bits, read as an unsigned number.
pub fn as_unsigned(x: i64) -> (y: u64)
    ensures
        y == unsigned64(x as int),
{
    if x >= 0 {
        x as u64
    } else {
        u64::MAX - (-(x + 1)) as u64
    }
}

/// Unsigned 64-bit addition that drops the carry.
pub fn sum_unsigned(a: u64, b: u64) -> (sum: u64)
    ensures
        sum == unsigned64(a + b),
{
    a.wrapping_add(b)
}

/// Signed 64-bit addition that wraps around.
pub fn sum_signed(a: i64, b: i64) -> (sum: i64)
    ensures
        sum == signed64(a + b),
{
    a.wrapping_add(b)
}

/// Signed 64-bit subtraction that wraps around.
pub fn difference_signed(a: i64, b: i64) -> (difference: i64)
    ensures
        difference == signed64(a - b),
{
    a.wrapping_sub(b)
}

/// Milliseconds of a span that is counted in units of 100 nanoseconds: rounded towards zero,
/// then kept as 64 unsigned bits.
pub open spec fn millis_of_ticks(ticks: int) -> int {
    if ticks >= 0 {
        ticks / 10000
    } else {
        unsigned64(-((-ticks) / 10000))
    }
}

/// Converts a span counted in units of 100 nanoseconds to milliseconds.
pub fn ticks_to_ms(ticks: i64) -> (ms: u64)
    ensures
        ms == millis_of_ticks(ticks as int),
{
    if ticks >= 0 {
        ticks as u64 / 10000
    } else {
        let magnitude: u64 = (-(ticks + 1)) as u64 + 1;
        let whole: i64 = (magnitude / 10000) as i64;
        as_unsigned(-whole)
    }
}

/// Converts milliseconds to a span counted in units of 100 nanoseconds, in 64 signed bits.
pub fn ms_to_ticks(ms: u64) -> (ticks: i64)
    ensures
        ticks == signed64(ms * 10000),
{
    as_signed(ms.wrapping_mul(10000))
}

/// A span of whole milliseconds that fits the tick counter comes back unchanged.
pub proof fn law_ticks_round_trip(ms: u64)
    requires
        ms * 10000 <= i64::MAX,
    ensures
        millis_of_ticks(signed64(ms * 10000)) == ms,
{
}

/// A span counted in units of 100 nanoseconds holds as many whole milliseconds as go into it:
/// ten thousand units make one, and what is left over is dropped.
pub proof fn law_ticks_make_whole_milliseconds(ticks: i64)
    ensures
        ticks >= 0 ==> millis_of_ticks(ticks as int) * 10000 <= ticks < millis_of_ticks(
            ticks as int,
        ) * 10000 + 10000,
        ticks < 0 ==> ({
            let ms = signed64(millis_of_ticks(ticks as int));
            ms <= 0 && ms * 10000 - 10000 < ticks <= ms * 10000
        }),
{
}

/// Reading 64 bits as a signed or an unsigned number stays in the range of such numbers, and
/// differs from what was read by a multiple of 2^64.
pub proof fn law_sixty_four_bits_wrap(x: int)
    ensures
        -0x8000_0000_0000_0000 <= signed64(x) < 0x8000_0000_0000_0000,
        0 <= unsigned64(x) < 0x1_0000_0000_0000_0000,
        (x - signed64(x)) % 0x1_0000_0000_0000_0000 == 0,
        (x - unsigned64(x)) % 0x1_0000_0000_0000_0000 == 0,
        0 <= x < 0x8000_0000_0000_0000 ==> signed64(x) == x && unsigned64(x) == x,
{
}

/// The milliseconds between two points in time are those of the span between them, as long as
/// they fit.
pub proof fn law_millis_between_measure_the_span(since: Instant, now: Instant)
    ensures
        whole_millis(time_between(since, now)) < 0x1_0000_0000_0000_0000 ==> millis_between(
            since,
            now,
        ) == whole_millis(time_between(since, now)),
{
}

} // verus!
