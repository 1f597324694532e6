use vstd::prelude::*;

verus! {

/// Bytes in one megabyte, as the speed figures count them.
pub const BYTES_PER_MEGABYTE: u64 = 1048576;

/// Nanoseconds in one second.
pub const NANOS_PER_SECOND: u64 = 1000000000;

/// The speed reported for a transfer that took no measurable time, and the
/// ceiling of every speed: large, but finite.
pub const MAX_SPEED_MILLI_MBPS: u64 = 0xffff_ffff_ffff_ffff;

/// Throughput, in thousandths of a megabit per second, of `bytes` moved in
/// `elapsed_ns` nanoseconds, rounded down:
/// `bytes / 1,048,576 * 8 * 1000 / (elapsed_ns / 1e9)`.
/// A zero duration, or a speed beyond the ceiling, gives the ceiling.
pub open spec fn speed_spec(bytes: nat, elapsed_ns: nat) -> nat {
    if elapsed_ns == 0 {
        MAX_SPEED_MILLI_MBPS as nat
    } else {
        let exact = (bytes * 8000 * NANOS_PER_SECOND) / (BYTES_PER_MEGABYTE * elapsed_ns);
        if exact > MAX_SPEED_MILLI_MBPS { MAX_SPEED_MILLI_MBPS as nat } else { exact as nat }
    }
}

/// Computes the throughput of a finished transfer, guarding against a zero
/// duration.
pub fn speed_milli_mbps(bytes: u64, elapsed_ns: u64) -> (r: u64)
    ensures
        r as nat == speed_spec(bytes as nat, elapsed_ns as nat),
        elapsed_ns == 0 ==> r == MAX_SPEED_MILLI_MBPS,
{
    if elapsed_ns == 0 {
        return MAX_SPEED_MILLI_MBPS;
    }
    let b = bytes as u128;
    let e = elapsed_ns as u128;
    assert(b * 8000 * 1000000000 <= 0xffff_ffff_ffff_ffff * 8000 * 1000000000) by (nonlinear_arith)
        requires b <= 0xffff_ffff_ffff_ffff;
    assert(1048576 * e <= 1048576 * 0xffff_ffff_ffff_ffff) by (nonlinear_arith)
        requires e <= 0xffff_ffff_ffff_ffff;
    let num: u128 = b * 8000 * (NANOS_PER_SECOND as u128);
    let den: u128 = (BYTES_PER_MEGABYTE as u128) * e;
    let exact: u128 = num / den;
    if exact > MAX_SPEED_MILLI_MBPS as u128 {
        MAX_SPEED_MILLI_MBPS
    } else {
        exact as u64
    }
}

/// Scaling the bytes moved and the time taken by the same positive factor
/// leaves the computed speed unchanged; doubling both is the factor two.
pub proof fn lemma_speed_scale_invariant(bytes: nat, elapsed_ns: nat, factor: nat)
    requires
        factor > 0,
    ensures
        speed_spec(factor * bytes, factor * elapsed_ns) == speed_spec(bytes, elapsed_ns),
{
    if elapsed_ns > 0 {
        assert(factor * elapsed_ns > 0) by (nonlinear_arith)
            requires factor > 0, elapsed_ns > 0;
        let num = bytes * 8000 * NANOS_PER_SECOND;
        let den = BYTES_PER_MEGABYTE * elapsed_ns;
        assert((factor * bytes) * 8000 * NANOS_PER_SECOND == factor * num) by (nonlinear_arith)
            requires num == bytes * 8000 * NANOS_PER_SECOND;
        assert(BYTES_PER_MEGABYTE * (factor * elapsed_ns) == factor * den) by (nonlinear_arith)
            requires den == BYTES_PER_MEGABYTE * elapsed_ns;
        assert(den > 0) by (nonlinear_arith)
            requires den == BYTES_PER_MEGABYTE * elapsed_ns, elapsed_ns > 0;
        vstd::arithmetic::div_mod::lemma_div_multiples_vanish_quotient(
            factor as int,
            num as int,
            den as int,
        );
    } else {
        assert(factor * elapsed_ns == 0) by (nonlinear_arith)
            requires elapsed_ns == 0;
    }
}

} // verus!
