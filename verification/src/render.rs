//! The report renderer.
//!
//! Turns a [`Plan`] into the labeled multi-line text summary: a
//! configuration echo, the itemized accumulation of the derivation chain,
//! and the per-node recommendations. Gigabyte amounts are rendered to one
//! decimal place and terabyte amounts (the gigabyte value divided by 1000)
//! to two, both rounded to the nearest such digit with midpoints rounded
//! up; percentages are rendered to zero decimal places the same way. The
//! exact character sequence produced is pinned by the spec functions below.

use vstd::prelude::*;
use vstd::string::StrSliceExecFns;
use vstd::string::StringExecFns;

use crate::planner::{frac_in_range, plan_in_range, Plan};
use crate::rat::{Frac, Rat};

verus! {

/// The character of one decimal digit.
pub open spec fn digit_char(d: int) -> char {
    if d == 0 {
        '0'
    } else if d == 1 {
        '1'
    } else if d == 2 {
        '2'
    } else if d == 3 {
        '3'
    } else if d == 4 {
        '4'
    } else if d == 5 {
        '5'
    } else if d == 6 {
        '6'
    } else if d == 7 {
        '7'
    } else if d == 8 {
        '8'
    } else {
        '9'
    }
}

/// The decimal digits of `n`, most significant first.
pub open spec fn spec_digits(n: nat) -> Seq<char>
    decreases n,
{
    if n < 10 {
        seq![digit_char(n as int)]
    } else {
        spec_digits(n / 10) + seq![digit_char((n % 10) as int)]
    }
}

/// `num / den` in tenths, rounded to the nearest tenth, midpoints upward
/// (for an odd denominator the midpoint itself falls down).
pub open spec fn spec_tenths(q: Rat) -> int {
    (10 * q.num + q.den / 2) / q.den
}

/// `num / den` in thousandth-hundredths: the value divided by 1000, in
/// hundredths, rounded the same way.
pub open spec fn spec_tb_hundredths(q: Rat) -> int {
    (q.num + 5 * q.den) / (10 * q.den)
}

/// A milli-unit fraction as a whole percentage, rounded the same way.
pub open spec fn spec_percent(milli: int) -> int {
    (milli + 5) / 10
}

/// A gigabyte amount, one decimal place: `"482.7 GB"`.
pub open spec fn spec_fmt_gb(q: Rat) -> Seq<char> {
    let t = spec_tenths(q);
    spec_digits((t / 10) as nat) + "."@ + seq![digit_char(t % 10)] + " GB"@
}

/// A terabyte amount, two decimal places: `"0.48 TB"`.
pub open spec fn spec_fmt_tb(q: Rat) -> Seq<char> {
    let h = spec_tb_hundredths(q);
    spec_digits((h / 100) as nat) + "."@ + seq![digit_char((h / 10) % 10)] + seq![
        digit_char(h % 10),
    ] + " TB"@
}

/// A milli-unit fraction as a percentage: `"75%"`.
pub open spec fn spec_fmt_pct(milli: int) -> Seq<char> {
    spec_digits(spec_percent(milli) as nat) + "%"@
}

/// The configuration echo of the report.
pub open spec fn spec_config_lines(p: Plan) -> Seq<char> {
    "=== Elasticsearch Disk Capacity Planner ===\n"@ + "Nodes: "@ + spec_digits(p.nodes as nat)
        + "\n"@ + "Primary shards: "@ + spec_digits(p.primaries as nat) + "\n"@
        + "Replicas per shard: "@ + spec_digits(p.replicas as nat) + "\n"@ + "Shard size: "@
        + spec_fmt_gb(Rat { num: p.shard_size_milli_gb as int, den: 1000 })
        + " | Overhead merge: "@ + spec_fmt_pct(p.overhead_merge_milli as int) + " | Headroom: "@
        + spec_fmt_pct(p.headroom_milli as int) + "\n"@ + "Relocation buffer per node: "@
        + spec_fmt_gb(Rat { num: p.buffer_per_node_milli_gb as int, den: 1000 }) + "\n"@
        + "Target disk utilization: "@ + spec_fmt_pct(p.target_utilization_milli as int) + "\n"@
}

/// The itemized accumulation of the report.
pub open spec fn spec_accumulation_lines(p: Plan) -> Seq<char> {
    "\n"@ + "Base (primaries+replicas): "@ + spec_fmt_gb(p.base@) + " ("@ + spec_fmt_tb(p.base@)
        + ")\n"@ + "+ Merge overhead:         "@ + spec_fmt_gb(p.with_merge@) + " ("@
        + spec_fmt_tb(p.with_merge@) + ")\n"@ + "+ Headroom:               "@ + spec_fmt_gb(
        p.with_headroom@,
    ) + " ("@ + spec_fmt_tb(p.with_headroom@) + ")\n"@ + "+ Total buffer:           "@
        + spec_fmt_gb(p.buffer_total@) + " ("@ + spec_fmt_tb(p.buffer_total@) + ")\n"@
        + "= Cluster total:          "@ + spec_fmt_gb(p.total_cluster@) + " ("@ + spec_fmt_tb(
        p.total_cluster@,
    ) + ")\n"@
}

/// The per-node recommendations of the report.
pub open spec fn spec_recommendation_lines(p: Plan) -> Seq<char> {
    "\n"@ + "Per node (recommended):   "@ + spec_fmt_gb(p.per_node@) + " ("@ + spec_fmt_tb(
        p.per_node@,
    ) + ")\n"@ + "Disk per node (<~"@ + spec_fmt_pct(p.target_utilization_milli as int) + "): "@
        + spec_fmt_gb(p.disk_per_node@) + " ("@ + spec_fmt_tb(p.disk_per_node@) + ")\n"@
}

/// The whole report.
pub open spec fn spec_report(p: Plan) -> Seq<char> {
    spec_config_lines(p) + spec_accumulation_lines(p) + spec_recommendation_lines(p)
}

/// Appends the decimal digits of `n`, most significant first.
fn push_digits(s: &mut String, n: u128)
    ensures
        final(s)@ == old(s)@ + spec_digits(n as nat),
    decreases n,
{
    let digits = "0123456789";
    proof {
        reveal_strlit("0123456789");
    }
    if n < 10 {
        let i: usize = n as usize;
        let d = digits.substring_char(i, i + 1);
        s.append(d);
        proof {
            assert(s@ =~= old(s)@ + spec_digits(n as nat));
        }
    } else {
        push_digits(s, n / 10);
        let i: usize = (n % 10) as usize;
        let d = digits.substring_char(i, i + 1);
        s.append(d);
        proof {
            assert(s@ =~= old(s)@ + spec_digits(n as nat));
        }
    }
}

/// Appends a gigabyte amount to one decimal place.
fn push_gb(s: &mut String, f: &Frac)
    requires
        frac_in_range(*f),
    ensures
        final(s)@ == old(s)@ + spec_fmt_gb(f@),
{
    let t: u128 = (10 * f.num + f.den / 2) / f.den;
    push_digits(s, t / 10);
    s.append(".");
    push_digits(s, t % 10);
    s.append(" GB");
    proof {
        let q = f@;
        assert(t == spec_tenths(q));
        assert(spec_digits((t % 10) as nat) =~= seq![digit_char(t as int % 10)]);
        assert(s@ =~= old(s)@ + spec_fmt_gb(q));
    }
}

/// Appends a terabyte amount to two decimal places.
fn push_tb(s: &mut String, f: &Frac)
    requires
        frac_in_range(*f),
    ensures
        final(s)@ == old(s)@ + spec_fmt_tb(f@),
{
    let h: u128 = (f.num + 5 * f.den) / (10 * f.den);
    push_digits(s, h / 100);
    s.append(".");
    push_digits(s, (h / 10) % 10);
    push_digits(s, h % 10);
    s.append(" TB");
    proof {
        let q = f@;
        assert(h == spec_tb_hundredths(q));
        assert(spec_digits(((h / 10) % 10) as nat) =~= seq![digit_char((h as int / 10) % 10)]);
        assert(spec_digits((h % 10) as nat) =~= seq![digit_char(h as int % 10)]);
        assert(s@ =~= old(s)@ + spec_fmt_tb(q));
    }
}

/// Appends a milli-unit fraction as a whole percentage.
fn push_pct(s: &mut String, milli: i64)
    requires
        milli >= 0,
    ensures
        final(s)@ == old(s)@ + spec_fmt_pct(milli as int),
{
    let pct: u128 = ((milli as u128) + 5) / 10;
    push_digits(s, pct);
    s.append("%");
    proof {
        assert(pct == spec_percent(milli as int));
        assert(s@ =~= old(s)@ + spec_fmt_pct(milli as int));
    }
}

/// Appends the configuration echo of the report.
#[verifier::rlimit(50)]
fn push_config_lines(s: &mut String, p: &Plan)
    requires
        plan_in_range(*p),
    ensures
        final(s)@ == old(s)@ + spec_config_lines(*p),
{
    s.append("=== Elasticsearch Disk Capacity Planner ===\n");
    s.append("Nodes: ");
    push_digits(s, p.nodes as u128);
    s.append("\n");
    s.append("Primary shards: ");
    push_digits(s, p.primaries as u128);
    s.append("\n");
    s.append("Replicas per shard: ");
    push_digits(s, p.replicas as u128);
    s.append("\n");
    s.append("Shard size: ");
    let shard = Frac { num: p.shard_size_milli_gb as u128, den: 1000 };
    push_gb(s, &shard);
    s.append(" | Overhead merge: ");
    push_pct(s, p.overhead_merge_milli);
    s.append(" | Headroom: ");
    push_pct(s, p.headroom_milli);
    s.append("\n");
    s.append("Relocation buffer per node: ");
    let buffer = Frac { num: p.buffer_per_node_milli_gb as u128, den: 1000 };
    push_gb(s, &buffer);
    s.append("\n");
    s.append("Target disk utilization: ");
    push_pct(s, p.target_utilization_milli);
    s.append("\n");
    proof {
        assert(s@ =~= old(s)@ + spec_config_lines(*p));
    }
}

/// Appends the itemized accumulation of the report.
#[verifier::rlimit(100)]
fn push_accumulation_lines(s: &mut String, p: &Plan)
    requires
        plan_in_range(*p),
    ensures
        final(s)@ == old(s)@ + spec_accumulation_lines(*p),
{
    s.append("\n");
    s.append("Base (primaries+replicas): ");
    push_gb(s, &p.base);
    s.append(" (");
    push_tb(s, &p.base);
    s.append(")\n");
    s.append("+ Merge overhead:         ");
    push_gb(s, &p.with_merge);
    s.append(" (");
    push_tb(s, &p.with_merge);
    s.append(")\n");
    s.append("+ Headroom:               ");
    push_gb(s, &p.with_headroom);
    s.append(" (");
    push_tb(s, &p.with_headroom);
    s.append(")\n");
    s.append("+ Total buffer:           ");
    push_gb(s, &p.buffer_total);
    s.append(" (");
    push_tb(s, &p.buffer_total);
    s.append(")\n");
    s.append("= Cluster total:          ");
    push_gb(s, &p.total_cluster);
    s.append(" (");
    push_tb(s, &p.total_cluster);
    s.append(")\n");
    proof {
        assert(s@ =~= old(s)@ + spec_accumulation_lines(*p));
    }
}

/// Appends the per-node recommendations of the report.
#[verifier::rlimit(50)]
fn push_recommendation_lines(s: &mut String, p: &Plan)
    requires
        plan_in_range(*p),
    ensures
        final(s)@ == old(s)@ + spec_recommendation_lines(*p),
{
    s.append("\n");
    s.append("Per node (recommended):   ");
    push_gb(s, &p.per_node);
    s.append(" (");
    push_tb(s, &p.per_node);
    s.append(")\n");
    s.append("Disk per node (<~");
    push_pct(s, p.target_utilization_milli);
    s.append("): ");
    push_gb(s, &p.disk_per_node);
    s.append(" (");
    push_tb(s, &p.disk_per_node);
    s.append(")\n");
    proof {
        assert(s@ =~= old(s)@ + spec_recommendation_lines(*p));
    }
}

impl Plan {
    /// Renders the plan as the multi-line capacity report.
    ///
    /// The bound on the plan holds of every plan `plan_capacity` produces
    /// under its input caps; it is what keeps the renderer's rounding
    /// arithmetic inside 128 bits.
    pub fn render_report(&self) -> (r: String)
        requires
            plan_in_range(*self),
        ensures
            r@ == spec_report(*self),
    {
        let mut s = String::new();
        push_config_lines(&mut s, self);
        push_accumulation_lines(&mut s, self);
        push_recommendation_lines(&mut s, self);
        proof {
            assert(s@ =~= spec_report(*self));
        }
        s
    }
}

} // verus!
