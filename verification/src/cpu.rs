//! The utilization sampler: tick snapshots, counter deltas, utilization
//! fractions in hundredths, severity tiers, and the composed CPU command.
use vstd::prelude::*;
use crate::text::{
    spec_fraction, spec_percent_label, fraction_string, percent_label,
};

verus! {

/// One point-in-time read of the host's cumulative CPU tick counters,
/// one counter per CPU state category.
#[derive(Clone, Copy, PartialEq, Eq, Structural, Debug)]
pub struct TickSnapshot {
    pub user: u32,
    pub system: u32,
    pub idle: u32,
}

/// The activity in one category since `prev`, clamped to zero when the
/// counter moved backwards (a counter reset is treated as no activity
/// rather than letting the subtraction wrap).
pub open spec fn spec_delta(cur: u32, prev: u32) -> int {
    if cur >= prev {
        cur - prev
    } else {
        0
    }
}

pub fn delta(cur: u32, prev: u32) -> (d: u32)
    ensures
        d == spec_delta(cur, prev),
{
    if cur >= prev {
        cur - prev
    } else {
        0
    }
}

/// The total activity between two snapshots, over all three categories.
pub open spec fn spec_total_delta(prev: TickSnapshot, cur: TickSnapshot) -> int {
    spec_delta(cur.user, prev.user) + spec_delta(cur.system, prev.system) + spec_delta(
        cur.idle,
        prev.idle,
    )
}

/// The largest total delta three `u32` counters can produce.
pub open spec fn max_total_delta() -> int {
    (3 * 0xFFFF_FFFFu64) as int
}

/// `d / t` as a fraction in hundredths, rounded to the nearest hundredth
/// (halves round up).
pub open spec fn spec_hundredths(d: int, t: int) -> int
    recommends
        t > 0,
{
    (200 * d + t) / (2 * t)
}

pub proof fn lemma_hundredths_bounded(d: int, t: int)
    requires
        0 < t,
        0 <= d <= t,
    ensures
        0 <= spec_hundredths(d, t) <= 100,
{
    assert(0 <= (200 * d + t) / (2 * t) <= 100) by (nonlinear_arith)
        requires
            0 < t,
            0 <= d <= t,
    ;
}

pub fn hundredths(d: u64, t: u64) -> (h: u8)
    requires
        0 < t <= max_total_delta(),
        d <= t,
    ensures
        h == spec_hundredths(d as int, t as int),
        h <= 100,
{
    proof {
        lemma_hundredths_bounded(d as int, t as int);
    }
    let num: u64 = 200 * d + t;
    let den: u64 = 2 * t;
    (num / den) as u8
}

/// A discrete severity bucket for a utilization fraction.
#[derive(Clone, Copy, PartialEq, Eq, Structural, Debug)]
pub enum ColorTier {
    Red,
    Orange,
    Yellow,
    Default,
}

/// The severity rank of a tier, for stating monotonicity.
pub open spec fn spec_severity(t: ColorTier) -> int {
    match t {
        ColorTier::Red => 3,
        ColorTier::Orange => 2,
        ColorTier::Yellow => 1,
        ColorTier::Default => 0,
    }
}

/// The tier of the exact fraction `busy / total`: at least 0.70 is `Red`,
/// at least 0.30 is `Orange`, at least 0.10 is `Yellow`, below that
/// `Default`.
pub open spec fn spec_tier(busy: int, total: int) -> ColorTier
    recommends
        total > 0,
{
    if 10 * busy >= 7 * total {
        ColorTier::Red
    } else if 10 * busy >= 3 * total {
        ColorTier::Orange
    } else if 10 * busy >= total {
        ColorTier::Yellow
    } else {
        ColorTier::Default
    }
}

pub fn classify(busy: u64, total: u64) -> (t: ColorTier)
    requires
        0 < total <= max_total_delta(),
        busy <= total,
    ensures
        t == spec_tier(busy as int, total as int),
{
    if 10 * busy >= 7 * total {
        ColorTier::Red
    } else if 10 * busy >= 3 * total {
        ColorTier::Orange
    } else if 10 * busy >= total {
        ColorTier::Yellow
    } else {
        ColorTier::Default
    }
}

/// The tier is a non-decreasing step function of the busy fraction: for a
/// fixed total, more busy ticks never yield a less severe tier.
pub proof fn lemma_tier_monotone(b1: int, b2: int, total: int)
    requires
        total > 0,
        0 <= b1 <= b2,
    ensures
        spec_severity(spec_tier(b1, total)) <= spec_severity(spec_tier(b2, total)),
{
}

/// The tier depends only on the fraction `busy / total`, not on the scale
/// of the two counts.
pub proof fn lemma_tier_scale_invariant(busy: int, total: int, k: int)
    requires
        total > 0,
        k > 0,
    ensures
        spec_tier(k * busy, k * total) == spec_tier(busy, total),
{
    assert((10 * (k * busy) >= 7 * (k * total)) == (10 * busy >= 7 * total)) by (nonlinear_arith)
        requires
            k > 0,
    ;
    assert((10 * (k * busy) >= 3 * (k * total)) == (10 * busy >= 3 * total)) by (nonlinear_arith)
        requires
            k > 0,
    ;
    assert((10 * (k * busy) >= k * total) == (10 * busy >= total)) by (nonlinear_arith)
        requires
            k > 0,
    ;
}

/// The tier at the breakpoints: a zero fraction is `Default`, and the
/// fractions 0.10, 0.30 and 0.70 land exactly on `Yellow`, `Orange` and
/// `Red`.
pub proof fn lemma_tier_breakpoints()
    ensures
        spec_tier(0, 100) == ColorTier::Default,
        spec_tier(9, 100) == ColorTier::Default,
        spec_tier(10, 100) == ColorTier::Yellow,
        spec_tier(30, 100) == ColorTier::Orange,
        spec_tier(70, 100) == ColorTier::Red,
{
}

/// The three per-category fractions account for the whole interval: their
/// rounded hundredths sum to 100, up to one hundredth of rounding error.
pub proof fn lemma_fraction_sum(du: int, ds: int, di: int)
    requires
        0 <= du,
        0 <= ds,
        0 <= di,
        du + ds + di > 0,
    ensures
        99 <= spec_hundredths(du, du + ds + di) + spec_hundredths(ds, du + ds + di)
            + spec_hundredths(di, du + ds + di) <= 101,
{
    let t = du + ds + di;
    assert(99 <= (200 * du + t) / (2 * t) + (200 * ds + t) / (2 * t) + (200 * di + t) / (2 * t)
        <= 101) by (nonlinear_arith)
        requires
            t == du + ds + di,
            0 <= du,
            0 <= ds,
            0 <= di,
            t > 0,
    ;
}

/// The color names supplied by the environment, one per tier; a missing
/// name is carried as the empty string.
#[derive(Debug)]
pub struct ColorConfig {
    pub red: String,
    pub orange: String,
    pub yellow: String,
    pub label_color: String,
}

/// The configured color name for a tier.
pub open spec fn spec_color_for(t: ColorTier, c: ColorConfig) -> Seq<char> {
    match t {
        ColorTier::Red => c.red@,
        ColorTier::Orange => c.orange@,
        ColorTier::Yellow => c.yellow@,
        ColorTier::Default => c.label_color@,
    }
}

pub fn color_for(c: &ColorConfig, t: ColorTier) -> (r: String)
    ensures
        r@ == spec_color_for(t, *c),
{
    match t {
        ColorTier::Red => c.red.clone(),
        ColorTier::Orange => c.orange.clone(),
        ColorTier::Yellow => c.yellow.clone(),
        ColorTier::Default => c.label_color.clone(),
    }
}

/// The full CPU command: pushes the system and user fractions, sets the
/// rounded total percentage with its color, and sets the top-process label.
pub open spec fn spec_cpu_command(
    sys_h: int,
    user_h: int,
    total_h: int,
    color: Seq<char>,
    top: Seq<char>,
) -> Seq<char> {
    "--push cpu.sys "@ + spec_fraction(sys_h) + " --push cpu.user "@ + spec_fraction(user_h)
        + " --set cpu.percent label="@ + spec_percent_label(total_h) + "% label.color="@ + color
        + " --set cpu.top label=\""@ + top + "\""@
}

pub fn compose_cpu_command(
    sys_h: u8,
    user_h: u8,
    total_h: u8,
    color: &String,
    top: &str,
) -> (r: String)
    requires
        sys_h <= 100,
        user_h <= 100,
        total_h <= 100,
    ensures
        r@ == spec_cpu_command(sys_h as int, user_h as int, total_h as int, color@, top@),
{
    let mut s = String::from_str("--push cpu.sys ");
    let sys_frac = fraction_string(sys_h);
    s.append(sys_frac.as_str());
    s.append(" --push cpu.user ");
    let user_frac = fraction_string(user_h);
    s.append(user_frac.as_str());
    s.append(" --set cpu.percent label=");
    let pct = percent_label(total_h);
    s.append(pct.as_str());
    s.append("% label.color=");
    s.append(color.as_str());
    s.append(" --set cpu.top label=\"");
    s.append(top);
    s.append("\"");
    proof {
        assert(s@ =~= spec_cpu_command(
            sys_h as int,
            user_h as int,
            total_h as int,
            color@,
            top@,
        ));
    }
    s
}

/// The utilization sampler: keeps the previous snapshot and composes one
/// CPU command per update once a previous snapshot exists.
pub struct CPU {
    pub prev_load: TickSnapshot,
    pub has_prev_load: bool,
    pub command: String,
}

/// What one update stores in `command`: nothing on the very first sample
/// and on a degenerate interval (all three deltas zero), else the composed
/// CPU command for the interval from the stored snapshot to `load`.
pub open spec fn spec_update_command(
    old_cpu: CPU,
    load: TickSnapshot,
    top: Seq<char>,
    colors: ColorConfig,
) -> Seq<char> {
    if !old_cpu.has_prev_load {
        Seq::<char>::empty()
    } else {
        let du = spec_delta(load.user, old_cpu.prev_load.user);
        let ds = spec_delta(load.system, old_cpu.prev_load.system);
        let t = spec_total_delta(old_cpu.prev_load, load);
        if t == 0 {
            Seq::<char>::empty()
        } else {
            spec_cpu_command(
                spec_hundredths(ds, t),
                spec_hundredths(du, t),
                spec_hundredths(du + ds, t),
                spec_color_for(spec_tier(du + ds, t), colors),
                top,
            )
        }
    }
}

impl CPU {
    /// A fresh sampler: no previous snapshot, empty command.
    pub fn new() -> (c: CPU)
        ensures
            !c.has_prev_load,
            c.command@ == Seq::<char>::empty(),
            c.prev_load == (TickSnapshot { user: 0, system: 0, idle: 0 }),
    {
        CPU {
            prev_load: TickSnapshot { user: 0, system: 0, idle: 0 },
            has_prev_load: false,
            command: String::new(),
        }
    }

    /// One sampling step against an already-captured snapshot `load`.
    ///
    /// The first call only stores the snapshot and leaves the command
    /// empty; later calls compose the command for the elapsed interval.
    /// The snapshot is stored on every path, and an interval in which no
    /// tick advanced (a division-by-zero hazard) yields the empty command.
    pub fn update(&mut self, load: TickSnapshot, top_process: &str, colors: &ColorConfig)
        ensures
            final(self).has_prev_load,
            final(self).prev_load == load,
            final(self).command@ == spec_update_command(*old(self), load, top_process@, *colors),
    {
        if self.has_prev_load {
            let du = delta(load.user, self.prev_load.user);
            let ds = delta(load.system, self.prev_load.system);
            let di = delta(load.idle, self.prev_load.idle);
            let total: u64 = du as u64 + ds as u64 + di as u64;
            if total == 0 {
                self.command = String::new();
            } else {
                let busy: u64 = du as u64 + ds as u64;
                let user_h = hundredths(du as u64, total);
                let sys_h = hundredths(ds as u64, total);
                let total_h = hundredths(busy, total);
                let tier = classify(busy, total);
                let color = color_for(colors, tier);
                self.command = compose_cpu_command(sys_h, user_h, total_h, &color, top_process);
            }
        } else {
            self.command = String::new();
        }
        self.prev_load = load;
        self.has_prev_load = true;
    }
}

/// The first update on a fresh sampler composes no command, whatever the
/// snapshot, the probe result and the colors.
pub proof fn lemma_first_update_silent(
    old_cpu: CPU,
    load: TickSnapshot,
    top: Seq<char>,
    colors: ColorConfig,
)
    requires
        !old_cpu.has_prev_load,
    ensures
        spec_update_command(old_cpu, load, top, colors) == Seq::<char>::empty(),
{
}

} // verus!
