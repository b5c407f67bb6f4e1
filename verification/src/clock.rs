//! Conversions of performance-counter readings and time spans to nanoseconds.
//!
//! Arithmetic that leaves 64 bits wraps around.

use vstd::arithmetic::div_mod::{
    lemma_div_is_ordered, lemma_fundamental_div_mod, lemma_hoist_over_denominator,
};
use vstd::prelude::*;

verus! {

/// Nanoseconds in a second.
pub const NS_PER_SECOND: u64 = 1_000_000_000;

/// The process-wide clock: the counter frequency, once it has been read.
pub struct QpcClock {
    pub frequency: Option<u64>,
}

/// The 64 bits of a signed reading read as an unsigned number.
pub open spec fn reading_bits(reading: i64) -> nat {
    if reading < 0 {
        (reading + 0x1_0000_0000_0000_0000) as nat
    } else {
        reading as nat
    }
}

/// A number reduced to 64 bits.
pub open spec fn wrap64(x: int) -> int {
    x % 0x1_0000_0000_0000_0000
}

/// The nanoseconds that `ticks` of a counter take, rounded down.
pub open spec fn exact_ns(ticks: int, frequency: int) -> int {
    ticks * NS_PER_SECOND / frequency
}

/// The frequency of a clock that holds `kept` and is offered a reading.
pub open spec fn frequency_of(kept: Option<u64>, reading: i64) -> nat {
    match kept {
        Some(f) => f as nat,
        None => reading_bits(reading),
    }
}

/// What `ticks` convert to: whole seconds and the rest converted apart, each
/// product and the sum reduced to 64 bits.
pub open spec fn ticks_ns(ticks: int, frequency: int) -> int {
    wrap64(
        (ticks / frequency) * NS_PER_SECOND + wrap64((ticks % frequency) * NS_PER_SECOND)
            / frequency,
    )
}

/// What a span in units of 100 ns converts to.
pub open spec fn span_ns(hns: int) -> int {
    wrap64(hns * 100)
}

/// A conversion that stays within 64 bits.
pub open spec fn ticks_fit(ticks: int, frequency: int) -> bool {
    &&& 0 <= ticks
    &&& 0 < frequency <= u64::MAX / NS_PER_SECOND
    &&& exact_ns(ticks, frequency) <= u64::MAX
}

fn unsigned_reading(reading: i64) -> (bits: u64)
    ensures
        bits == reading_bits(reading),
{
    let bits: u64 = reading as u64;
    assert(reading >= 0 ==> bits == reading) by (bit_vector)
        requires
            bits == reading as u64,
    ;
    assert(reading < 0 ==> bits == reading + 0x1_0000_0000_0000_0000) by (bit_vector)
        requires
            bits == reading as u64,
    ;
    bits
}

impl QpcClock {
    /// A clock whose frequency has not been read yet.
    pub fn new() -> (clock: Self)
        ensures
            clock.frequency is None,
    {
        QpcClock { frequency: None }
    }
}

/// The frequency of the clock. The first reading that the clock is offered is
/// the one it keeps.
pub fn frequency(clock: &mut QpcClock, reading: i64) -> (f: u64)
    ensures
        f == frequency_of(old(clock).frequency, reading),
        final(clock).frequency == Some(f),
{
    match clock.frequency {
        Some(kept) => kept,
        None => {
            let f: u64 = unsigned_reading(reading);
            clock.frequency = Some(f);
            f
        },
    }
}

/// Makes sure that the clock has a frequency.
pub fn init(clock: &mut QpcClock, reading: i64)
    ensures
        final(clock).frequency matches Some(f) && f == frequency_of(old(clock).frequency, reading),
{
    let _ = frequency(clock, reading);
}

/// The counter value in a reading of the counter.
pub fn now_ticks(reading: i64) -> (ticks: u64)
    ensures
        ticks == reading_bits(reading),
{
    unsigned_reading(reading)
}

proof fn lemma_split(ticks: int, frequency: int)
    requires
        ticks >= 0,
        frequency > 0,
    ensures
        exact_ns(ticks, frequency) == (ticks / frequency) * NS_PER_SECOND + (ticks % frequency)
            * NS_PER_SECOND / frequency,
{
    let whole = ticks / frequency;
    let rem = ticks % frequency;
    lemma_fundamental_div_mod(ticks, frequency);
    lemma_hoist_over_denominator(rem * NS_PER_SECOND, whole * NS_PER_SECOND, frequency as nat);
    assert(ticks * NS_PER_SECOND == rem * NS_PER_SECOND + (whole * NS_PER_SECOND) * frequency)
        by (nonlinear_arith)
        requires
            ticks == frequency * whole + rem,
    ;
}

proof fn lemma_fitting_conversion_is_exact(ticks: int, frequency: int)
    requires
        ticks_fit(ticks, frequency),
    ensures
        ticks_ns(ticks, frequency) == exact_ns(ticks, frequency),
{
    lemma_split(ticks, frequency);
    let rem = ticks % frequency;
    lemma_div_is_ordered(0, rem * NS_PER_SECOND, frequency);
    assert(ticks / frequency >= 0) by (nonlinear_arith)
        requires
            ticks >= 0,
            frequency > 0,
    ;
}

proof fn lemma_wrap_of_sum(a: int, b: int)
    ensures
        wrap64(wrap64(a) + b) == wrap64(a + b),
{
}

/// Converts counter ticks to nanoseconds. Whole seconds and the rest are
/// converted apart, so that the product stays within 64 bits for every counter
/// of up to 18.4 GHz.
pub fn ticks_to_ns(ticks: u64, frequency: u64) -> (ns: u64)
    requires
        frequency > 0,
    ensures
        ns == ticks_ns(ticks as int, frequency as int),
        ticks_fit(ticks as int, frequency as int) ==> ns == exact_ns(
            ticks as int,
            frequency as int,
        ),
{
    let whole: u64 = ticks / frequency;
    let rem: u64 = ticks % frequency;
    let product: u64 = rem.wrapping_mul(NS_PER_SECOND);
    let part: u64 = product / frequency;
    let seconds: u64 = whole.wrapping_mul(NS_PER_SECOND);
    let ns: u64 = seconds.wrapping_add(part);
    proof {
        assert(seconds == wrap64(whole * NS_PER_SECOND));
        assert(ns == wrap64(seconds + part));
        lemma_wrap_of_sum(whole * NS_PER_SECOND, part as int);
        if ticks_fit(ticks as int, frequency as int) {
            lemma_fitting_conversion_is_exact(ticks as int, frequency as int);
        }
    }
    ns
}

/// The nanoseconds since the epoch of the counter, from a reading of it.
pub fn now_ns(reading: i64, frequency: u64) -> (ns: u64)
    requires
        frequency > 0,
    ensures
        ns == ticks_ns(reading_bits(reading) as int, frequency as int),
        ticks_fit(reading_bits(reading) as int, frequency as int) ==> ns == exact_ns(
            reading_bits(reading) as int,
            frequency as int,
        ),
{
    ticks_to_ns(now_ticks(reading), frequency)
}

/// Converts a span in units of 100 ns to nanoseconds.
pub fn hundred_ns_to_ns(hns: i64) -> (ns: u64)
    ensures
        ns == span_ns(hns as int),
        0 <= hns && hns * 100 <= u64::MAX ==> ns == hns * 100,
{
    let bits: u64 = unsigned_reading(hns);
    assert(wrap64(bits * 100) == wrap64(hns * 100));
    bits.wrapping_mul(100)
}

/// Converts a counter position that is given in units of 100 ns to nanoseconds.
pub fn position_to_ns(position: u64) -> (ns: u64)
    ensures
        ns == span_ns(position as int),
        position * 100 <= u64::MAX ==> ns == position * 100,
{
    position.wrapping_mul(100)
}

/// Offering the clock another reading changes nothing.
pub proof fn law_first_reading_is_kept(kept: Option<u64>, first: i64, again: i64)
    ensures
        frequency_of(Some(frequency_of(kept, first) as u64), again) == frequency_of(kept, first),
{
}

/// A later counter value never converts to an earlier time.
pub proof fn law_conversion_is_monotonic(earlier: u64, later: u64, frequency: u64)
    requires
        earlier <= later,
        ticks_fit(later as int, frequency as int),
    ensures
        ticks_ns(earlier as int, frequency as int) <= ticks_ns(later as int, frequency as int),
{
    lemma_div_is_ordered(
        earlier * NS_PER_SECOND,
        later * NS_PER_SECOND,
        frequency as int,
    );
    lemma_fitting_conversion_is_exact(earlier as int, frequency as int);
    lemma_fitting_conversion_is_exact(later as int, frequency as int);
}

/// The counter and the spans of 100 ns that the system makes of it lie on one time
/// line, whatever the frequency: the two conversions differ by less than one unit
/// of a span.
pub proof fn law_counter_and_span_agree(ticks: u64, frequency: u64)
    requires
        ticks_fit(ticks as int, frequency as int),
    ensures
        ({
            let span = ticks * 10_000_000 / frequency as int;
            span_ns(span) <= ticks_ns(ticks as int, frequency as int) < span_ns(span) + 100
        }),
{
    let f = frequency as int;
    let a = ticks * 10_000_000;
    let q = a / f;
    let r = a % f;
    let ns = exact_ns(ticks as int, f);
    lemma_fitting_conversion_is_exact(ticks as int, f);
    lemma_fundamental_div_mod(a, f);
    lemma_fundamental_div_mod(ticks * NS_PER_SECOND, f);
    assert(ticks * NS_PER_SECOND == a * 100);
    assert(q >= 0 && 0 <= r < f) by (nonlinear_arith)
        requires
            f > 0,
            a >= 0,
            q == a / f,
            r == a % f,
    ;
    let rest = (a * 100) % f;
    assert(0 <= rest < f) by (nonlinear_arith)
        requires
            f > 0,
            rest == (a * 100) % f,
    ;
    assert(100 * q <= ns < 100 * q + 100) by (nonlinear_arith)
        requires
            f > 0,
            a == f * q + r,
            a * 100 == f * ns + rest,
            0 <= r < f,
            0 <= rest < f,
    ;
}

/// A number of ticks converts to the nanoseconds that it takes, rounded down, for every
/// counter of up to 18.4 GHz and every time that fits in 64 bits.
pub proof fn law_conversion_is_exact(ticks: u64, frequency: u64)
    requires
        0 < frequency <= 18_446_744_073,
        ticks * 1_000_000_000 < frequency * 0x1_0000_0000_0000_0000,
    ensures
        ({
            let ns = ticks_ns(ticks as int, frequency as int);
            ns * frequency <= ticks * 1_000_000_000 < (ns + 1) * frequency
        }),
{
    let f = frequency as int;
    let a = ticks * 1_000_000_000;
    let ns = a / f;
    assert(0 <= ns < 0x1_0000_0000_0000_0000 && ns * f <= a < (ns + 1) * f) by (nonlinear_arith)
        requires
            f > 0,
            0 <= a < f * 0x1_0000_0000_0000_0000,
            ns == a / f,
    ;
    lemma_fitting_conversion_is_exact(ticks as int, f);
}

/// A whole number of seconds converts to as many thousand million nanoseconds.
pub proof fn law_seconds_are_seconds(seconds: u64, frequency: u64)
    requires
        0 < frequency <= 18_446_744_073,
        seconds * frequency <= u64::MAX,
        seconds * 1_000_000_000 <= u64::MAX,
    ensures
        ticks_ns(seconds * frequency, frequency as int) == seconds * 1_000_000_000,
{
    let f = frequency as int;
    let s = seconds as int;
    assert((s * f) / f == s && (s * f) % f == 0) by (nonlinear_arith)
        requires
            f > 0,
    ;
    assert(0int / f == 0) by (nonlinear_arith)
        requires
            f > 0,
    ;
}

/// A reading is kept bit by bit: only multiples of 2 to the power of 64 come or go.
pub proof fn law_readings_keep_their_bits(reading: i64)
    ensures
        reading_bits(reading) < 0x1_0000_0000_0000_0000,
        (reading_bits(reading) - reading) % 0x1_0000_0000_0000_0000 == 0,
{
}

/// A span of 100 ns is a hundred nanoseconds, as many times as it fits in 64 bits, and
/// up to a multiple of 2 to the power of 64 beyond that.
pub proof fn law_spans_are_hundreds(hns: int)
    ensures
        0 <= span_ns(hns) < 0x1_0000_0000_0000_0000,
        (span_ns(hns) - hns * 100) % 0x1_0000_0000_0000_0000 == 0,
        0 <= hns * 100 < 0x1_0000_0000_0000_0000 ==> span_ns(hns) == hns * 100,
{
}

/// A clock keeps the frequency that it has, and takes over the one that it is offered
/// otherwise.
pub proof fn law_frequency_is_taken_over(kept: Option<u64>, reading: i64)
    ensures
        kept matches Some(f) ==> frequency_of(kept, reading) == f,
        kept is None && reading >= 0 ==> frequency_of(kept, reading) == reading,
        kept is None ==> frequency_of(kept, reading) == reading_bits(reading),
{
}

} // verus!
