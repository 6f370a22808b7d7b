//! The capacity calculator.
//!
//! Real-valued inputs are whole counts of milli-units: `shard_size_milli_gb`
//! is thousandths of a gigabyte, `overhead_merge_milli` is thousandths of a
//! dimensionless fraction (so `200` means a fraction of `0.200`), and so on.
//! Every derived quantity is an exact fraction ([`Frac`]); nothing in the
//! derivation chain rounds.

use vstd::prelude::*;

use crate::rat::Frac;

verus! {

/// Largest accepted node, primary and replica count.
pub const MAX_COUNT: u32 = 1000000;

/// Largest accepted shard size or per-node buffer, in milli-gigabytes.
pub const MAX_MILLI_GB: i64 = 1000000000;

/// Largest accepted overhead or headroom fraction, in milli-units.
pub const MAX_MILLI_FRAC: i64 = 1000000;

/// Largest numerator a plan's fraction can reach under the input caps.
pub const MAX_FRAC_NUM: u128 = 2000000000000000000000000000000000000;

/// Largest denominator a plan's fraction can reach under the input caps.
pub const MAX_FRAC_DEN: u128 = 10000000000000000000000;

/// Why a set of sizing inputs was rejected. Exactly one cause is reported:
/// the first, in the order the checks are listed in [`plan_capacity`].
#[derive(Debug, Clone, Copy, PartialEq, Eq, Structural)]
pub enum PlanError {
    /// `nodes` was zero.
    ZeroNodes,
    /// `target_utilization` was outside the interval (0, 1].
    UtilizationOutOfRange,
    /// `overhead_merge` or `headroom` was negative.
    NegativeFraction,
    /// `shard_size_gb` was zero or negative.
    ShardSizeNotPositive,
}

impl PlanError {
    /// The diagnostic text of this rejection.
    pub open spec fn spec_message(&self) -> Seq<char> {
        match *self {
            PlanError::ZeroNodes => "nodes must be greater than zero"@,
            PlanError::UtilizationOutOfRange => "target_utilization must be in the interval (0, 1]"@,
            PlanError::NegativeFraction => "overhead_merge and headroom must be non-negative"@,
            PlanError::ShardSizeNotPositive => "shard_size_gb must be greater than zero"@,
        }
    }

    /// Renders the diagnostic text of this rejection.
    pub fn message(&self) -> (s: String)
        ensures
            s@ == self.spec_message(),
    {
        match *self {
            PlanError::ZeroNodes => "nodes must be greater than zero".to_owned(),
            PlanError::UtilizationOutOfRange => "target_utilization must be in the interval (0, 1]".to_owned(),
            PlanError::NegativeFraction => "overhead_merge and headroom must be non-negative".to_owned(),
            PlanError::ShardSizeNotPositive => "shard_size_gb must be greater than zero".to_owned(),
        }
    }
}

/// The computed capacity plan for a search-index cluster.
///
/// Derived amounts are exact fractions of decimal gigabytes. The inputs are
/// echoed in milli-units; the per-node buffer is echoed *resolved*, that is,
/// already defaulted to the shard size when it was not supplied.
#[derive(Debug, Clone, Copy, PartialEq, Eq, Structural)]
pub struct Plan {
    /// Total data size of all primary and replica shards combined:
    /// `primaries * shard_size_gb * (1 + replicas)`.
    pub base: Frac,
    /// Base size plus segment-merge overhead: `base * (1 + overhead_merge)`.
    pub with_merge: Frac,
    /// Size after the watermark/burst safety margin:
    /// `with_merge * (1 + headroom)`.
    pub with_headroom: Frac,
    /// Total relocation buffer over all nodes: `buffer_per_node * nodes`.
    pub buffer_total: Frac,
    /// Total cluster disk requirement: `with_headroom + buffer_total`.
    pub total_cluster: Frac,
    /// Recommended data size per node: `total_cluster / nodes`.
    pub per_node: Frac,
    /// Recommended physical disk per node: `per_node / target_utilization`.
    pub disk_per_node: Frac,
    /// Number of data nodes.
    pub nodes: u32,
    /// Total number of primary shards.
    pub primaries: u32,
    /// Replica copies per primary shard.
    pub replicas: u32,
    /// Average shard size, milli-gigabytes.
    pub shard_size_milli_gb: i64,
    /// Merge overhead fraction, milli-units.
    pub overhead_merge_milli: i64,
    /// Headroom fraction, milli-units.
    pub headroom_milli: i64,
    /// Relocation buffer per node, milli-gigabytes, resolved: equal to
    /// `shard_size_milli_gb` when no buffer was supplied.
    pub buffer_per_node_milli_gb: i64,
    /// Target disk utilization fraction, milli-units.
    pub target_utilization_milli: i64,
}

/// A fraction within the range the renderer's rounding arithmetic takes.
pub open spec fn frac_in_range(f: Frac) -> bool {
    &&& f.num <= MAX_FRAC_NUM
    &&& 1 <= f.den <= MAX_FRAC_DEN
}

/// Every quantity of the plan is within the renderer's range. Holds of
/// every plan the calculator produces under its input caps.
pub open spec fn plan_in_range(p: Plan) -> bool {
    &&& frac_in_range(p.base)
    &&& frac_in_range(p.with_merge)
    &&& frac_in_range(p.with_headroom)
    &&& frac_in_range(p.buffer_total)
    &&& frac_in_range(p.total_cluster)
    &&& frac_in_range(p.per_node)
    &&& frac_in_range(p.disk_per_node)
    &&& 0 <= p.shard_size_milli_gb <= 2000000000000
    &&& 0 <= p.buffer_per_node_milli_gb <= 2000000000000
    &&& 0 <= p.overhead_merge_milli
    &&& 0 <= p.headroom_milli
    &&& 0 <= p.target_utilization_milli
}

/// The inputs pass every validation check.
pub open spec fn inputs_valid(
    nodes: u32,
    shard_size_milli_gb: i64,
    overhead_merge_milli: i64,
    headroom_milli: i64,
    target_utilization_milli: i64,
) -> bool {
    &&& nodes != 0
    &&& 0 < target_utilization_milli <= 1000
    &&& overhead_merge_milli >= 0
    &&& headroom_milli >= 0
    &&& shard_size_milli_gb > 0
}

/// The error reported for invalid inputs: the first failing check, in
/// validation order.
pub open spec fn spec_error(
    nodes: u32,
    shard_size_milli_gb: i64,
    overhead_merge_milli: i64,
    headroom_milli: i64,
    target_utilization_milli: i64,
) -> PlanError {
    if nodes == 0 {
        PlanError::ZeroNodes
    } else if target_utilization_milli <= 0 || target_utilization_milli > 1000 {
        PlanError::UtilizationOutOfRange
    } else if overhead_merge_milli < 0 || headroom_milli < 0 {
        PlanError::NegativeFraction
    } else {
        PlanError::ShardSizeNotPositive
    }
}

/// The per-node buffer actually used: the supplied one, or the shard size
/// when none was supplied.
pub open spec fn resolved_buffer(shard_size_milli_gb: i64, buffer_per_node_milli_gb: Option<i64>) -> i64 {
    match buffer_per_node_milli_gb {
        Some(b) => b,
        None => shard_size_milli_gb,
    }
}

/// The plan that valid inputs produce: the derivation chain of the
/// calculator, written over unbounded integers.
///
/// Denominators are fixed powers of `1000` (times `nodes` and the
/// utilization for the two per-node quotients), so every derived value is
/// exact.
pub open spec fn spec_plan(
    nodes: u32,
    primaries: u32,
    replicas: u32,
    shard_size_milli_gb: i64,
    overhead_merge_milli: i64,
    headroom_milli: i64,
    buffer_per_node_milli_gb: Option<i64>,
    target_utilization_milli: i64,
) -> Plan {
    let buf = resolved_buffer(shard_size_milli_gb, buffer_per_node_milli_gb);
    let base_num = (primaries * shard_size_milli_gb) * (1 + replicas);
    let wm_num = base_num * (1000 + overhead_merge_milli);
    let wh_num = wm_num * (1000 + headroom_milli);
    let bt_num = buf * nodes;
    let total_num = wh_num + bt_num * 1000000;
    let per_den = 1000000000 * nodes;
    let disk_num = total_num * 1000;
    let disk_den = per_den * target_utilization_milli;
    Plan {
        base: Frac { num: base_num as u128, den: 1000 },
        with_merge: Frac { num: wm_num as u128, den: 1000000 },
        with_headroom: Frac { num: wh_num as u128, den: 1000000000 },
        buffer_total: Frac { num: bt_num as u128, den: 1000 },
        total_cluster: Frac { num: total_num as u128, den: 1000000000 },
        per_node: Frac { num: total_num as u128, den: per_den as u128 },
        disk_per_node: Frac { num: disk_num as u128, den: disk_den as u128 },
        nodes,
        primaries,
        replicas,
        shard_size_milli_gb,
        overhead_merge_milli,
        headroom_milli,
        buffer_per_node_milli_gb: buf,
        target_utilization_milli,
    }
}

/// Computes the disk capacity plan for a cluster.
///
/// Validation happens before any arithmetic and stops at the first failing
/// check: zero nodes, then utilization outside (0, 1], then a negative
/// overhead or headroom fraction, then a non-positive shard size. Zero
/// primaries or replicas are legal and yield a degenerate plan.
///
/// The size caps in the preconditions are what keeps the exact 128-bit
/// fixed-point arithmetic from overflowing; they admit every invalid input,
/// so each rejection above is still observable.
pub fn plan_capacity(
    nodes: u32,
    primaries: u32,
    replicas: u32,
    shard_size_milli_gb: i64,
    overhead_merge_milli: i64,
    headroom_milli: i64,
    buffer_per_node_milli_gb: Option<i64>,
    target_utilization_milli: i64,
) -> (r: Result<Plan, PlanError>)
    requires
        nodes <= MAX_COUNT,
        primaries <= MAX_COUNT,
        replicas <= MAX_COUNT,
        shard_size_milli_gb <= MAX_MILLI_GB,
        overhead_merge_milli <= MAX_MILLI_FRAC,
        headroom_milli <= MAX_MILLI_FRAC,
        buffer_per_node_milli_gb matches Some(b) ==> 0 < b <= MAX_MILLI_GB,
    ensures
        r is Ok <==> inputs_valid(
            nodes,
            shard_size_milli_gb,
            overhead_merge_milli,
            headroom_milli,
            target_utilization_milli,
        ),
        r matches Ok(p) ==> p == spec_plan(
            nodes,
            primaries,
            replicas,
            shard_size_milli_gb,
            overhead_merge_milli,
            headroom_milli,
            buffer_per_node_milli_gb,
            target_utilization_milli,
        ) && plan_in_range(p),
        r matches Err(e) ==> e == spec_error(
            nodes,
            shard_size_milli_gb,
            overhead_merge_milli,
            headroom_milli,
            target_utilization_milli,
        ),
{
    if nodes == 0 {
        return Err(PlanError::ZeroNodes);
    }
    if target_utilization_milli <= 0 || target_utilization_milli > 1000 {
        return Err(PlanError::UtilizationOutOfRange);
    }
    if overhead_merge_milli < 0 || headroom_milli < 0 {
        return Err(PlanError::NegativeFraction);
    }
    if shard_size_milli_gb <= 0 {
        return Err(PlanError::ShardSizeNotPositive);
    }

    let buf: i64 = match buffer_per_node_milli_gb {
        Some(b) => b,
        None => shard_size_milli_gb,
    };

    let nodes_w: u128 = nodes as u128;
    let primaries_w: u128 = primaries as u128;
    let replicas_w: u128 = replicas as u128;
    let shard_w: u128 = shard_size_milli_gb as u128;
    let overhead_w: u128 = overhead_merge_milli as u128;
    let headroom_w: u128 = headroom_milli as u128;
    let util_w: u128 = target_utilization_milli as u128;
    let buf_w: u128 = buf as u128;

    proof {
        assert(primaries_w * shard_w <= 1000000000000000) by (nonlinear_arith)
            requires
                primaries_w <= 1000000,
                shard_w <= 1000000000,
        ;
    }
    let ps: u128 = primaries_w * shard_w;
    proof {
        assert(ps * (1 + replicas_w) <= 1000001000000000000000) by (nonlinear_arith)
            requires
                ps <= 1000000000000000,
                replicas_w <= 1000000,
        ;
    }
    let base_num: u128 = ps * (1 + replicas_w);
    proof {
        assert(base_num * (1000 + overhead_w) <= 1001002001000000000000000000) by (nonlinear_arith)
            requires
                base_num <= 1000001000000000000000,
                overhead_w <= 1000000,
        ;
    }
    let wm_num: u128 = base_num * (1000 + overhead_w);
    proof {
        assert(wm_num * (1000 + headroom_w) <= 1002004004002001000000000000000000) by (nonlinear_arith)
            requires
                wm_num <= 1001002001000000000000000000,
                headroom_w <= 1000000,
        ;
    }
    let wh_num: u128 = wm_num * (1000 + headroom_w);
    proof {
        assert(buf_w * nodes_w <= 1000000000000000) by (nonlinear_arith)
            requires
                buf_w <= 1000000000,
                nodes_w <= 1000000,
        ;
    }
    let bt_num: u128 = buf_w * nodes_w;
    let total_num: u128 = wh_num + bt_num * 1000000;
    let per_den: u128 = 1000000000 * nodes_w;
    let disk_num: u128 = total_num * 1000;
    proof {
        assert(0 < per_den * util_w <= 1000000000000000000) by (nonlinear_arith)
            requires
                0 < per_den <= 1000000000000000,
                0 < util_w <= 1000,
        ;
    }
    let disk_den: u128 = per_den * util_w;

    Ok(Plan {
        base: Frac { num: base_num, den: 1000 },
        with_merge: Frac { num: wm_num, den: 1000000 },
        with_headroom: Frac { num: wh_num, den: 1000000000 },
        buffer_total: Frac { num: bt_num, den: 1000 },
        total_cluster: Frac { num: total_num, den: 1000000000 },
        per_node: Frac { num: total_num, den: per_den },
        disk_per_node: Frac { num: disk_num, den: disk_den },
        nodes,
        primaries,
        replicas,
        shard_size_milli_gb,
        overhead_merge_milli,
        headroom_milli,
        buffer_per_node_milli_gb: buf,
        target_utilization_milli,
    })
}

} // verus!
