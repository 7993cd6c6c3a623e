//! Phase current sensing: ADC count baselines and signed deviations from them.

use vstd::prelude::*;

verus! {

/// ADC counts of the four current channels: the MCP6021 sum amplifier and the
/// three INA240A1 phase shunt amplifiers.
#[derive(Clone, Copy, Debug, PartialEq, Eq)]
pub struct CurrentCounts {
    pub mcp6021_counts: u16,
    pub ina_u_counts: u16,
    pub ina_v_counts: u16,
    pub ina_w_counts: u16,
}

/// Zero-current reference counts for the four channels.
#[derive(Clone, Copy, Debug, PartialEq, Eq)]
pub struct CurrentBaseline {
    pub mcp6021_counts: u16,
    pub ina_u_counts: u16,
    pub ina_v_counts: u16,
    pub ina_w_counts: u16,
}

/// Signed deviation of each channel from its baseline.
#[derive(Clone, Copy, Debug, PartialEq, Eq)]
pub struct CurrentDeltas {
    pub mcp6021_delta_counts: i32,
    pub ina_u_delta_counts: i32,
    pub ina_v_delta_counts: i32,
    pub ina_w_delta_counts: i32,
}

/// Channel `ch` (0 = MCP6021, 1..3 = INA240 U, V, W) of a sample.
pub open spec fn channel(c: CurrentCounts, ch: int) -> int {
    if ch == 0 {
        c.mcp6021_counts as int
    } else if ch == 1 {
        c.ina_u_counts as int
    } else if ch == 2 {
        c.ina_v_counts as int
    } else {
        c.ina_w_counts as int
    }
}

/// Sum of channel `ch` over the samples.
pub open spec fn channel_sum(samples: Seq<CurrentCounts>, ch: int) -> int
    decreases samples.len(),
{
    if samples.len() == 0 {
        0
    } else {
        channel_sum(samples.drop_last(), ch) + channel(samples.last(), ch)
    }
}

/// Every channel of the samples sums to at most `u32::MAX`.
pub open spec fn sums_fit_u32(samples: Seq<CurrentCounts>) -> bool {
    forall|ch: int| 0 <= ch < 4 ==> #[trigger] channel_sum(samples, ch) <= u32::MAX
}

proof fn lemma_channel_sum_bounds(samples: Seq<CurrentCounts>, ch: int, i: int)
    requires
        0 <= i <= samples.len(),
    ensures
        0 <= channel_sum(samples.take(i), ch) <= channel_sum(samples, ch),
        channel_sum(samples.take(i), ch) <= i * 65535,
    decreases samples.len() - i,
{
    lemma_channel_sum_cap(samples.take(i), ch);
    if i < samples.len() {
        lemma_channel_sum_bounds(samples, ch, i + 1);
        assert(samples.take(i + 1).drop_last() =~= samples.take(i));
        assert(channel_sum(samples.take(i + 1), ch) == channel_sum(samples.take(i), ch) + channel(
            samples.take(i + 1).last(),
            ch,
        ));
        assert(channel(samples.take(i + 1).last(), ch) >= 0);
    } else {
        assert(samples.take(i) =~= samples);
        lemma_channel_sum_cap(samples, ch);
    }
}

proof fn lemma_channel_sum_cap(samples: Seq<CurrentCounts>, ch: int)
    ensures
        0 <= channel_sum(samples, ch) <= samples.len() * 65535,
    decreases samples.len(),
{
    if samples.len() > 0 {
        lemma_channel_sum_cap(samples.drop_last(), ch);
    }
}

/// Averages the baseline of each channel over `samples` readings taken with the
/// motor idle: the integer mean (rounded down) of each channel.
pub fn average_baseline(samples: &Vec<CurrentCounts>) -> (b: CurrentBaseline)
    requires
        0 < samples@.len() <= u32::MAX,
        sums_fit_u32(samples@),
    ensures
        b.mcp6021_counts as int == channel_sum(samples@, 0) / samples@.len() as int,
        b.ina_u_counts as int == channel_sum(samples@, 1) / samples@.len() as int,
        b.ina_v_counts as int == channel_sum(samples@, 2) / samples@.len() as int,
        b.ina_w_counts as int == channel_sum(samples@, 3) / samples@.len() as int,
{
    let n = samples.len();
    let mut sum0: u32 = 0;
    let mut sum1: u32 = 0;
    let mut sum2: u32 = 0;
    let mut sum3: u32 = 0;
    let mut i: usize = 0;
    assert(samples@.take(0) =~= Seq::<CurrentCounts>::empty());
    while i < n
        invariant
            n == samples@.len(),
            0 < n <= u32::MAX,
            0 <= i <= n,
            sums_fit_u32(samples@),
            sum0 as int == channel_sum(samples@.take(i as int), 0),
            sum1 as int == channel_sum(samples@.take(i as int), 1),
            sum2 as int == channel_sum(samples@.take(i as int), 2),
            sum3 as int == channel_sum(samples@.take(i as int), 3),
        decreases n - i,
    {
        let c = samples[i];
        proof {
            assert(samples@.take(i + 1).drop_last() =~= samples@.take(i as int));
            assert(samples@.take(i + 1).last() == c);
            assert(channel_sum(samples@, 0) <= u32::MAX);
            assert(channel_sum(samples@, 1) <= u32::MAX);
            assert(channel_sum(samples@, 2) <= u32::MAX);
            assert(channel_sum(samples@, 3) <= u32::MAX);
            lemma_channel_sum_bounds(samples@, 0, i + 1);
            lemma_channel_sum_bounds(samples@, 1, i + 1);
            lemma_channel_sum_bounds(samples@, 2, i + 1);
            lemma_channel_sum_bounds(samples@, 3, i + 1);
        }
        sum0 = sum0 + c.mcp6021_counts as u32;
        sum1 = sum1 + c.ina_u_counts as u32;
        sum2 = sum2 + c.ina_v_counts as u32;
        sum3 = sum3 + c.ina_w_counts as u32;
        i = i + 1;
    }
    proof {
        assert(samples@.take(n as int) =~= samples@);
        lemma_channel_sum_cap(samples@, 0);
        lemma_channel_sum_cap(samples@, 1);
        lemma_channel_sum_cap(samples@, 2);
        lemma_channel_sum_cap(samples@, 3);
        lemma_mean_fits(sum0 as int, n as int);
        lemma_mean_fits(sum1 as int, n as int);
        lemma_mean_fits(sum2 as int, n as int);
        lemma_mean_fits(sum3 as int, n as int);
    }
    let n32 = n as u32;
    CurrentBaseline {
        mcp6021_counts: (sum0 / n32) as u16,
        ina_u_counts: (sum1 / n32) as u16,
        ina_v_counts: (sum2 / n32) as u16,
        ina_w_counts: (sum3 / n32) as u16,
    }
}

proof fn lemma_mean_fits(sum: int, n: int)
    requires
        n > 0,
        0 <= sum <= n * 65535,
    ensures
        0 <= sum / n <= 65535,
{
    assert(sum / n <= 65535) by (nonlinear_arith)
        requires
            n > 0,
            0 <= sum <= n * 65535,
    ;
    assert(0 <= sum / n) by (nonlinear_arith)
        requires
            n > 0,
            0 <= sum,
    ;
}

/// The baseline of each channel lies between the smallest and the largest
/// reading of that channel; in particular readings that all agree average to
/// that reading.
pub proof fn lemma_baseline_within_readings(samples: Seq<CurrentCounts>, ch: int, lo: int, hi: int)
    requires
        samples.len() > 0,
        forall|i: int| 0 <= i < samples.len() ==> lo <= #[trigger] channel(samples[i], ch) <= hi,
    ensures
        lo <= channel_sum(samples, ch) / samples.len() as int <= hi,
{
    lemma_channel_sum_between(samples, ch, lo, hi);
    let n = samples.len() as int;
    let t = channel_sum(samples, ch);
    assert(lo <= t / n <= hi) by (nonlinear_arith)
        requires
            n > 0,
            n * lo <= t <= n * hi,
    {
        assert(t / n * n <= t);
        assert(t < (t / n + 1) * n);
    }
}

proof fn lemma_channel_sum_between(samples: Seq<CurrentCounts>, ch: int, lo: int, hi: int)
    requires
        forall|i: int| 0 <= i < samples.len() ==> lo <= #[trigger] channel(samples[i], ch) <= hi,
    ensures
        samples.len() * lo <= channel_sum(samples, ch) <= samples.len() * hi,
    decreases samples.len(),
{
    if samples.len() > 0 {
        let p = samples.drop_last();
        assert forall|i: int| 0 <= i < p.len() implies lo <= #[trigger] channel(p[i], ch) <= hi by {
            assert(p[i] == samples[i]);
        }
        lemma_channel_sum_between(p, ch, lo, hi);
        assert(channel(samples.last(), ch) == channel(samples[samples.len() - 1], ch));
        assert(samples.len() * lo == p.len() * lo + lo) by (nonlinear_arith)
            requires
                samples.len() == p.len() + 1,
        ;
        assert(samples.len() * hi == p.len() * hi + hi) by (nonlinear_arith)
            requires
                samples.len() == p.len() + 1,
        ;
    }
}

/// Readings that all agree give that reading as the baseline, channel by
/// channel: the MCP6021 baseline is the MCP6021 count and each INA240
/// baseline is its own phase's count.
pub proof fn lemma_baseline_of_steady_readings(samples: Seq<CurrentCounts>, c: CurrentCounts)
    requires
        samples.len() > 0,
        forall|i: int| 0 <= i < samples.len() ==> #[trigger] samples[i] == c,
    ensures
        channel_sum(samples, 0) / samples.len() as int == c.mcp6021_counts,
        channel_sum(samples, 1) / samples.len() as int == c.ina_u_counts,
        channel_sum(samples, 2) / samples.len() as int == c.ina_v_counts,
        channel_sum(samples, 3) / samples.len() as int == c.ina_w_counts,
{
    lemma_baseline_within_readings(samples, 0, c.mcp6021_counts as int, c.mcp6021_counts as int);
    lemma_baseline_within_readings(samples, 1, c.ina_u_counts as int, c.ina_u_counts as int);
    lemma_baseline_within_readings(samples, 2, c.ina_v_counts as int, c.ina_v_counts as int);
    lemma_baseline_within_readings(samples, 3, c.ina_w_counts as int, c.ina_w_counts as int);
}

/// Signed difference between a reading and its baseline.
pub fn signed_delta(value: u16, baseline: u16) -> (d: i32)
    ensures
        d as int == value as int - baseline as int,
{
    value as i32 - baseline as i32
}

/// Signed deviation of every channel of a reading from the baseline.
pub fn deltas_from_baseline(sample: CurrentCounts, baseline: CurrentBaseline) -> (d: CurrentDeltas)
    ensures
        d.mcp6021_delta_counts as int == sample.mcp6021_counts as int - baseline.mcp6021_counts as int,
        d.ina_u_delta_counts as int == sample.ina_u_counts as int - baseline.ina_u_counts as int,
        d.ina_v_delta_counts as int == sample.ina_v_counts as int - baseline.ina_v_counts as int,
        d.ina_w_delta_counts as int == sample.ina_w_counts as int - baseline.ina_w_counts as int,
{
    CurrentDeltas {
        mcp6021_delta_counts: signed_delta(sample.mcp6021_counts, baseline.mcp6021_counts),
        ina_u_delta_counts: signed_delta(sample.ina_u_counts, baseline.ina_u_counts),
        ina_v_delta_counts: signed_delta(sample.ina_v_counts, baseline.ina_v_counts),
        ina_w_delta_counts: signed_delta(sample.ina_w_counts, baseline.ina_w_counts),
    }
}

} // verus!
