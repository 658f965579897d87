//! Pulse-counter decoding and the windowed measurement.
//!
//! The hardware exposes a 12-bit modular pulse counter whose bits arrive
//! scattered across a 32-bit status word, fixed by the physical wiring, plus
//! a one-bit overlight (sensor saturation) flag.  A measurement brackets two
//! reads of that word around a nominal 100 microsecond sleep and normalizes
//! the counter delta by the wall-clock time the window actually took.

use vstd::prelude::*;

verus! {

/// One decoded pulse-counter reading: a modular (mod 4096) count and the
/// overlight flag.
#[derive(Clone, Copy, Debug, PartialEq, Eq, Structural)]
pub struct PulseReading {
    pub overlight: bool,
    pub count: u32,
}

/// The status-word bit holding the overlight flag.
pub const OVERLIGHT_BIT: u32 = 27;

/// The value of one bit of the raw status word.
pub open spec fn bit_of(raw: u32, pos: u32) -> u32 {
    (raw >> pos) & 1
}

/// The 12-bit counter as wired: source bit positions, least significant
/// destination bit first.
pub open spec fn spec_counter(raw: u32) -> u32 {
    bit_of(raw, 17)
        | (bit_of(raw, 5) << 1)
        | (bit_of(raw, 6) << 2)
        | (bit_of(raw, 13) << 3)
        | (bit_of(raw, 26) << 4)
        | (bit_of(raw, 12) << 5)
        | (bit_of(raw, 19) << 6)
        | (bit_of(raw, 22) << 7)
        | (bit_of(raw, 18) << 8)
        | (bit_of(raw, 23) << 9)
        | (bit_of(raw, 24) << 10)
        | (bit_of(raw, 16) << 11)
}

/// What `decode` returns for a given status word.
pub open spec fn spec_decode(raw: u32) -> PulseReading {
    PulseReading { overlight: bit_of(raw, OVERLIGHT_BIT) == 1, count: spec_counter(raw) }
}

/// Extracts the 12-bit pulse counter from the raw status word, one wired bit
/// at a time.
pub fn compute_counter(gpio: u32) -> (r: u32)
    ensures
        r == spec_counter(gpio),
        r < 4096,
{
    let q1: u32 = (gpio >> 17) & 1;
    let q2: u32 = (gpio >> 5) & 1;
    let q3: u32 = (gpio >> 6) & 1;
    let q4: u32 = (gpio >> 13) & 1;
    let q5: u32 = (gpio >> 26) & 1;
    let q6: u32 = (gpio >> 12) & 1;
    let q7: u32 = (gpio >> 19) & 1;
    let q8: u32 = (gpio >> 22) & 1;
    let q9: u32 = (gpio >> 18) & 1;
    let q10: u32 = (gpio >> 23) & 1;
    let q11: u32 = (gpio >> 24) & 1;
    let q12: u32 = (gpio >> 16) & 1;
    proof {
        assert(q1 + (q2 << 1) + (q3 << 2) + (q4 << 3) + (q5 << 4) + (q6 << 5) + (q7 << 6) + (q8
            << 7) + (q9 << 8) + (q10 << 9) + (q11 << 10) + (q12 << 11) == spec_counter(gpio)
            && spec_counter(gpio) < 4096) by (bit_vector)
            requires
                q1 == (gpio >> 17) & 1,
                q2 == (gpio >> 5) & 1,
                q3 == (gpio >> 6) & 1,
                q4 == (gpio >> 13) & 1,
                q5 == (gpio >> 26) & 1,
                q6 == (gpio >> 12) & 1,
                q7 == (gpio >> 19) & 1,
                q8 == (gpio >> 22) & 1,
                q9 == (gpio >> 18) & 1,
                q10 == (gpio >> 23) & 1,
                q11 == (gpio >> 24) & 1,
                q12 == (gpio >> 16) & 1,
        ;
    }
    q1 + (q2 << 1) + (q3 << 2) + (q4 << 3) + (q5 << 4) + (q6 << 5) + (q7 << 6) + (q8 << 7) + (q9
        << 8) + (q10 << 9) + (q11 << 10) + (q12 << 11)
}

/// Turns a raw status word into a `PulseReading`: the scattered 12-bit
/// counter plus the overlight flag.
pub fn decode(raw: u32) -> (r: PulseReading)
    ensures
        r == spec_decode(raw),
        r.count < 4096,
{
    let count = compute_counter(raw);
    let overlight = (raw >> OVERLIGHT_BIT) & 1 == 1;
    PulseReading { overlight, count }
}

/// The status-word bits that `decode` reads: the 12 wired counter bits plus
/// the overlight bit.
pub const RELEVANT_BITS: u32 = 0xDCF3060;

/// `decode` reads only the 12 wired counter bits and the overlight bit: two
/// status words that agree on those bits decode identically, whatever their
/// other 19 bits hold.
pub proof fn lemma_decode_reads_only_wired_bits(a: u32, b: u32)
    requires
        a & RELEVANT_BITS == b & RELEVANT_BITS,
    ensures
        spec_decode(a) == spec_decode(b),
{
    assert(a & 0xDCF3060 == b & 0xDCF3060 ==> spec_counter(a) == spec_counter(b) && ((a >> 27) & 1)
        == ((b >> 27) & 1)) by (bit_vector);
    assert(spec_decode(a).count == spec_decode(b).count);
    assert(spec_decode(a).overlight == spec_decode(b).overlight);
}

/// Flipping any single status-word bit outside the wired set leaves the
/// decoded reading unchanged.
pub proof fn lemma_decode_ignores_unwired_bit(raw: u32, pos: u32)
    requires
        pos < 32,
        (RELEVANT_BITS >> pos) & 1 == 0,
    ensures
        spec_decode(raw ^ (1u32 << pos)) == spec_decode(raw),
{
    assert(pos < 32 && (0xDCF3060u32 >> pos) & 1 == 0 ==> (raw ^ (1u32 << pos)) & 0xDCF3060 == raw
        & 0xDCF3060) by (bit_vector);
    lemma_decode_reads_only_wired_bits(raw ^ (1u32 << pos), raw);
}

/// Decoding is deterministic: any two readings obtained from the same status
/// word are identical.  (Both `decode` and `measure_window` pin their
/// results to `spec_decode`, a pure function of the word alone.)
pub proof fn lemma_decode_deterministic(raw: u32, r1: PulseReading, r2: PulseReading)
    requires
        r1 == spec_decode(raw),
        r2 == spec_decode(raw),
    ensures
        r1 == r2,
{
}

/// The raw counter delta across a window.  The wraparound branch
/// (`after < before`) is `before + (4096 - after)`, deliberately asymmetric
/// with the plain branch: the wiring was validated against this exact
/// formula, so it is kept verbatim rather than replaced by the usual modular
/// difference.
pub open spec fn spec_wrap_delta(before: u32, after: u32) -> int {
    if after < before {
        before + (4096 - after)
    } else {
        after - before
    }
}

/// Computes the raw (not yet time-scaled) counter delta between the two
/// reads that bracket a window.
pub fn wrap_delta(before: u32, after: u32) -> (r: u32)
    requires
        before < 4096,
        after < 4096,
    ensures
        r == spec_wrap_delta(before, after),
        r < 8192,
{
    if after < before {
        before + (4096 - after)
    } else {
        after - before
    }
}

/// A window is discarded when the host scheduler stalled long enough that
/// the wall clock ran more than 2.5 times the target duration.
pub open spec fn window_discarded(elapsed_us: u64, target_us: u32) -> bool {
    elapsed_us * 2 > target_us * 5
}

/// The counter delta scaled by elapsed / target (rounding half up), as the
/// rig normalizes it.  Note the direction: a window that ran long *inflates*
/// the estimate.  That matches the deployed rig and is kept as-is.
pub open spec fn spec_scaled_count(delta: int, elapsed_us: u64, target_us: u32) -> int {
    (delta * elapsed_us + target_us / 2) / (target_us as int)
}

/// One windowed measurement, from the two raw status words that bracketed
/// the window and the wall-clock time it took.  Returns `None` when the
/// window is discarded for scheduling jitter; otherwise the time-scaled
/// reading, with the overlight flags of the two reads OR-combined.
pub fn measure_window(before_raw: u32, after_raw: u32, elapsed_us: u64, target_us: u32) -> (r:
    Option<PulseReading>)
    requires
        target_us > 0,
    ensures
        window_discarded(elapsed_us, target_us) <==> r is None,
        r matches Some(reading) ==> {
            &&& reading.count == spec_scaled_count(
                spec_wrap_delta(spec_counter(before_raw), spec_counter(after_raw)),
                elapsed_us,
                target_us,
            )
            &&& reading.overlight == (spec_decode(before_raw).overlight || spec_decode(
                after_raw,
            ).overlight)
        },
{
    let before = decode(before_raw);
    let after = decode(after_raw);
    if elapsed_us > u64::MAX / 2 || elapsed_us * 2 > (target_us as u64) * 5 {
        proof {
            assert(elapsed_us > u64::MAX / 2 ==> elapsed_us * 2 > target_us * 5) by (nonlinear_arith)
                requires
                    target_us <= u32::MAX,
            ;
        }
        return None;
    }
    let delta = wrap_delta(before.count, after.count);
    proof {
        assert(delta < 8192 && elapsed_us * 2 <= target_us * 5 && target_us > 0 ==> (delta
            as u64) * elapsed_us + ((target_us / 2) as u64) < u64::MAX) by (nonlinear_arith);
        assert(delta < 8192 && elapsed_us * 2 <= target_us * 5 && target_us > 0 ==> ((
        delta as u64) * elapsed_us + ((target_us / 2) as u64)) / (target_us as int) <= u32::MAX)
            by (nonlinear_arith);
    }
    let scaled: u64 = ((delta as u64) * elapsed_us + (target_us / 2) as u64) / (target_us as u64);
    Some(PulseReading { overlight: before.overlight || after.overlight, count: scaled as u32 })
}

} // verus!
