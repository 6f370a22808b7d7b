//! Laws of the capacity plan.
//!
//! Each proof function states, over the ghost rationals of [`crate::rat`],
//! a property that the plan of [`crate::planner::spec_plan`] has for every
//! valid input — and hence, through the contract of
//! [`crate::planner::plan_capacity`], every plan that the calculator hands
//! out.

use vstd::prelude::*;

use crate::planner::{inputs_valid, resolved_buffer, spec_plan, MAX_COUNT, MAX_MILLI_FRAC,
    MAX_MILLI_GB};
use crate::rat::{rat_add, rat_div, rat_eq, rat_le, rat_mul, rat_of_int, rat_of_milli, Rat};

verus! {

/// The caps of `plan_capacity`'s preconditions, over one input record.
pub open spec fn inputs_within_caps(
    nodes: u32,
    primaries: u32,
    replicas: u32,
    shard_size_milli_gb: i64,
    overhead_merge_milli: i64,
    headroom_milli: i64,
    buffer_per_node_milli_gb: Option<i64>,
) -> bool {
    &&& nodes <= MAX_COUNT
    &&& primaries <= MAX_COUNT
    &&& replicas <= MAX_COUNT
    &&& shard_size_milli_gb <= MAX_MILLI_GB
    &&& overhead_merge_milli <= MAX_MILLI_FRAC
    &&& headroom_milli <= MAX_MILLI_FRAC
    &&& (buffer_per_node_milli_gb matches Some(b) ==> 0 < b <= MAX_MILLI_GB)
}

/// The views of the plan's fractions are the derivation chain itself, over
/// unbounded integers: under the caps nothing in `spec_plan` is truncated by
/// the 128-bit representation.
pub proof fn lemma_plan_views_exact(
    nodes: u32,
    primaries: u32,
    replicas: u32,
    shard_size_milli_gb: i64,
    overhead_merge_milli: i64,
    headroom_milli: i64,
    buffer_per_node_milli_gb: Option<i64>,
    target_utilization_milli: i64,
)
    requires
        inputs_valid(
            nodes,
            shard_size_milli_gb,
            overhead_merge_milli,
            headroom_milli,
            target_utilization_milli,
        ),
        inputs_within_caps(
            nodes,
            primaries,
            replicas,
            shard_size_milli_gb,
            overhead_merge_milli,
            headroom_milli,
            buffer_per_node_milli_gb,
        ),
    ensures
        ({
            let p = spec_plan(
                nodes,
                primaries,
                replicas,
                shard_size_milli_gb,
                overhead_merge_milli,
                headroom_milli,
                buffer_per_node_milli_gb,
                target_utilization_milli,
            );
            let buf = resolved_buffer(shard_size_milli_gb, buffer_per_node_milli_gb) as int;
            let base_num = (primaries * shard_size_milli_gb) * (1 + replicas);
            let wm_num = base_num * (1000 + overhead_merge_milli);
            let wh_num = wm_num * (1000 + headroom_milli);
            let bt_num = buf * nodes;
            let total_num = wh_num + bt_num * 1000000;
            &&& 0 <= base_num
            &&& 0 <= wh_num
            &&& 0 < bt_num
            &&& p.base@ == (Rat { num: base_num, den: 1000 })
            &&& p.with_merge@ == (Rat { num: wm_num, den: 1000000 })
            &&& p.with_headroom@ == (Rat { num: wh_num, den: 1000000000 })
            &&& p.buffer_total@ == (Rat { num: bt_num, den: 1000 })
            &&& p.total_cluster@ == (Rat { num: total_num, den: 1000000000 })
            &&& p.per_node@ == (Rat { num: total_num, den: 1000000000 * nodes })
            &&& p.disk_per_node@ == (Rat {
                num: total_num * 1000,
                den: (1000000000 * nodes) * target_utilization_milli,
            })
        }),
{
    let buf = resolved_buffer(shard_size_milli_gb, buffer_per_node_milli_gb) as int;
    let base_num = (primaries * shard_size_milli_gb) * (1 + replicas);
    let wm_num = base_num * (1000 + overhead_merge_milli);
    let wh_num = wm_num * (1000 + headroom_milli);
    let bt_num = buf * nodes;
    assert(0 <= base_num <= 1000001000000000000000) by (nonlinear_arith)
        requires
            0 <= primaries <= 1000000,
            0 < shard_size_milli_gb <= 1000000000,
            0 <= replicas <= 1000000,
            base_num == (primaries * shard_size_milli_gb) * (1 + replicas),
    ;
    assert(0 <= wm_num <= 1001002001000000000000000000) by (nonlinear_arith)
        requires
            0 <= base_num <= 1000001000000000000000,
            0 <= overhead_merge_milli <= 1000000,
            wm_num == base_num * (1000 + overhead_merge_milli),
    ;
    assert(0 <= wh_num <= 1002004004002001000000000000000000) by (nonlinear_arith)
        requires
            0 <= wm_num <= 1001002001000000000000000000,
            0 <= headroom_milli <= 1000000,
            wh_num == wm_num * (1000 + headroom_milli),
    ;
    assert(0 < bt_num <= 1000000000000000) by (nonlinear_arith)
        requires
            0 < buf <= 1000000000,
            0 < nodes <= 1000000,
            bt_num == buf * nodes,
    ;
    assert(0 < 1000000000 * nodes <= 1000000000000000);
    assert(0 < (1000000000 * nodes) * target_utilization_milli <= 1000000000000000000) by (
    nonlinear_arith)
        requires
            0 < 1000000000 * nodes <= 1000000000000000,
            0 < target_utilization_milli <= 1000,
    ;
}

/// Accumulation: each link of the derivation chain holds exactly, as an
/// identity between the rationals of the plan.
///
/// `base = primaries * shard_size * (1 + replicas)`,
/// `with_merge = base * (1 + overhead_merge)`,
/// `with_headroom = with_merge * (1 + headroom)`,
/// `buffer_total = buffer_per_node * nodes`, and
/// `total_cluster = with_headroom + buffer_total`.
pub proof fn lemma_accumulation(
    nodes: u32,
    primaries: u32,
    replicas: u32,
    shard_size_milli_gb: i64,
    overhead_merge_milli: i64,
    headroom_milli: i64,
    buffer_per_node_milli_gb: Option<i64>,
    target_utilization_milli: i64,
)
    requires
        inputs_valid(
            nodes,
            shard_size_milli_gb,
            overhead_merge_milli,
            headroom_milli,
            target_utilization_milli,
        ),
        inputs_within_caps(
            nodes,
            primaries,
            replicas,
            shard_size_milli_gb,
            overhead_merge_milli,
            headroom_milli,
            buffer_per_node_milli_gb,
        ),
    ensures
        ({
            let p = spec_plan(
                nodes,
                primaries,
                replicas,
                shard_size_milli_gb,
                overhead_merge_milli,
                headroom_milli,
                buffer_per_node_milli_gb,
                target_utilization_milli,
            );
            &&& rat_eq(
                p.base@,
                rat_mul(
                    rat_mul(rat_of_int(primaries as int), rat_of_milli(shard_size_milli_gb as int)),
                    rat_of_int(1 + replicas as int),
                ),
            )
            &&& rat_eq(
                p.with_merge@,
                rat_mul(p.base@, rat_add(rat_of_int(1), rat_of_milli(overhead_merge_milli as int))),
            )
            &&& rat_eq(
                p.with_headroom@,
                rat_mul(p.with_merge@, rat_add(rat_of_int(1), rat_of_milli(headroom_milli as int))),
            )
            &&& rat_eq(
                p.buffer_total@,
                rat_mul(
                    rat_of_milli(
                        resolved_buffer(shard_size_milli_gb, buffer_per_node_milli_gb) as int,
                    ),
                    rat_of_int(nodes as int),
                ),
            )
            &&& rat_eq(p.total_cluster@, rat_add(p.with_headroom@, p.buffer_total@))
        }),
{
    lemma_plan_views_exact(
        nodes,
        primaries,
        replicas,
        shard_size_milli_gb,
        overhead_merge_milli,
        headroom_milli,
        buffer_per_node_milli_gb,
        target_utilization_milli,
    );
    let p = spec_plan(
        nodes,
        primaries,
        replicas,
        shard_size_milli_gb,
        overhead_merge_milli,
        headroom_milli,
        buffer_per_node_milli_gb,
        target_utilization_milli,
    );
    assert(p.base@.num == (primaries * shard_size_milli_gb) * (1 + replicas));
    assert(p.base@.den == 1000);
    assert(rat_mul(
        rat_mul(rat_of_int(primaries as int), rat_of_milli(shard_size_milli_gb as int)),
        rat_of_int(1 + replicas as int),
    ).num == (primaries * shard_size_milli_gb) * (1 + replicas));
    assert(rat_mul(
        rat_mul(rat_of_int(primaries as int), rat_of_milli(shard_size_milli_gb as int)),
        rat_of_int(1 + replicas as int),
    ).den == 1000);
    assert(p.total_cluster@.den == 1000000000);
    assert(rat_add(p.with_headroom@, p.buffer_total@).den == 1000000000000);
    assert(rat_add(p.with_headroom@, p.buffer_total@).num == p.with_headroom@.num * 1000
        + p.buffer_total@.num * 1000000000);
    assert(p.total_cluster@.num == p.with_headroom@.num + (p.buffer_total@.num * 1000000));
}

/// The per-node recommendation is the cluster total spread over the nodes:
/// `per_node == total_cluster / nodes`.
pub proof fn lemma_per_node(
    nodes: u32,
    primaries: u32,
    replicas: u32,
    shard_size_milli_gb: i64,
    overhead_merge_milli: i64,
    headroom_milli: i64,
    buffer_per_node_milli_gb: Option<i64>,
    target_utilization_milli: i64,
)
    requires
        inputs_valid(
            nodes,
            shard_size_milli_gb,
            overhead_merge_milli,
            headroom_milli,
            target_utilization_milli,
        ),
        inputs_within_caps(
            nodes,
            primaries,
            replicas,
            shard_size_milli_gb,
            overhead_merge_milli,
            headroom_milli,
            buffer_per_node_milli_gb,
        ),
    ensures
        ({
            let p = spec_plan(
                nodes,
                primaries,
                replicas,
                shard_size_milli_gb,
                overhead_merge_milli,
                headroom_milli,
                buffer_per_node_milli_gb,
                target_utilization_milli,
            );
            rat_eq(p.per_node@, rat_div(p.total_cluster@, rat_of_int(nodes as int)))
        }),
{
}

/// Scaling the recommended disk back by the target utilization gives the
/// per-node data size: `disk_per_node * target_utilization == per_node`.
pub proof fn lemma_disk_per_node(
    nodes: u32,
    primaries: u32,
    replicas: u32,
    shard_size_milli_gb: i64,
    overhead_merge_milli: i64,
    headroom_milli: i64,
    buffer_per_node_milli_gb: Option<i64>,
    target_utilization_milli: i64,
)
    requires
        inputs_valid(
            nodes,
            shard_size_milli_gb,
            overhead_merge_milli,
            headroom_milli,
            target_utilization_milli,
        ),
        inputs_within_caps(
            nodes,
            primaries,
            replicas,
            shard_size_milli_gb,
            overhead_merge_milli,
            headroom_milli,
            buffer_per_node_milli_gb,
        ),
    ensures
        ({
            let p = spec_plan(
                nodes,
                primaries,
                replicas,
                shard_size_milli_gb,
                overhead_merge_milli,
                headroom_milli,
                buffer_per_node_milli_gb,
                target_utilization_milli,
            );
            rat_eq(
                rat_mul(p.disk_per_node@, rat_of_milli(target_utilization_milli as int)),
                p.per_node@,
            )
        }),
{
    lemma_plan_views_exact(
        nodes,
        primaries,
        replicas,
        shard_size_milli_gb,
        overhead_merge_milli,
        headroom_milli,
        buffer_per_node_milli_gb,
        target_utilization_milli,
    );
    let p = spec_plan(
        nodes,
        primaries,
        replicas,
        shard_size_milli_gb,
        overhead_merge_milli,
        headroom_milli,
        buffer_per_node_milli_gb,
        target_utilization_milli,
    );
    let t = p.total_cluster@.num;
    let n = nodes as int;
    let u = target_utilization_milli as int;
    assert(((t * 1000) * u) * (1000000000 * n) == t * (((1000000000 * n) * u) * 1000)) by (
    nonlinear_arith);
}

/// Omitting the per-node buffer is the same as supplying the shard size as
/// its value: the two plans are identical, field for field.
pub proof fn lemma_default_buffer(
    nodes: u32,
    primaries: u32,
    replicas: u32,
    shard_size_milli_gb: i64,
    overhead_merge_milli: i64,
    headroom_milli: i64,
    target_utilization_milli: i64,
)
    ensures
        spec_plan(
            nodes,
            primaries,
            replicas,
            shard_size_milli_gb,
            overhead_merge_milli,
            headroom_milli,
            None,
            target_utilization_milli,
        ) == spec_plan(
            nodes,
            primaries,
            replicas,
            shard_size_milli_gb,
            overhead_merge_milli,
            headroom_milli,
            Some(shard_size_milli_gb),
            target_utilization_milli,
        ),
{
}

/// Monotonicity: raising any of the node count, the primary count, the
/// replica count, the shard size, the overhead fraction, the headroom
/// fraction or the supplied buffer — in any combination, holding the rest —
/// never decreases the cluster total. The buffer is either omitted on both
/// sides or supplied on both sides.
pub proof fn lemma_total_cluster_monotone(
    nodes1: u32,
    primaries1: u32,
    replicas1: u32,
    shard1: i64,
    overhead1: i64,
    headroom1: i64,
    buffer1: Option<i64>,
    util: i64,
    nodes2: u32,
    primaries2: u32,
    replicas2: u32,
    shard2: i64,
    overhead2: i64,
    headroom2: i64,
    buffer2: Option<i64>,
)
    requires
        inputs_valid(nodes1, shard1, overhead1, headroom1, util),
        inputs_within_caps(nodes1, primaries1, replicas1, shard1, overhead1, headroom1, buffer1),
        inputs_valid(nodes2, shard2, overhead2, headroom2, util),
        inputs_within_caps(nodes2, primaries2, replicas2, shard2, overhead2, headroom2, buffer2),
        nodes1 <= nodes2,
        primaries1 <= primaries2,
        replicas1 <= replicas2,
        shard1 <= shard2,
        overhead1 <= overhead2,
        headroom1 <= headroom2,
        buffer1 is Some <==> buffer2 is Some,
        buffer1 matches Some(b1) ==> (buffer2 matches Some(b2) && b1 <= b2),
    ensures
        ({
            let p1 = spec_plan(
                nodes1,
                primaries1,
                replicas1,
                shard1,
                overhead1,
                headroom1,
                buffer1,
                util,
            );
            let p2 = spec_plan(
                nodes2,
                primaries2,
                replicas2,
                shard2,
                overhead2,
                headroom2,
                buffer2,
                util,
            );
            rat_le(p1.total_cluster@, p2.total_cluster@)
        }),
{
    lemma_plan_views_exact(nodes1, primaries1, replicas1, shard1, overhead1, headroom1, buffer1,
        util);
    lemma_plan_views_exact(nodes2, primaries2, replicas2, shard2, overhead2, headroom2, buffer2,
        util);
    let wh1 = (((primaries1 * shard1) * (1 + replicas1)) * (1000 + overhead1)) * (1000 + headroom1);
    let wh2 = (((primaries2 * shard2) * (1 + replicas2)) * (1000 + overhead2)) * (1000 + headroom2);
    let b1 = resolved_buffer(shard1, buffer1) as int;
    let b2 = resolved_buffer(shard2, buffer2) as int;
    assert(wh1 <= wh2) by (nonlinear_arith)
        requires
            0 <= primaries1 <= primaries2,
            0 < shard1 <= shard2,
            0 <= replicas1 <= replicas2,
            0 <= overhead1 <= overhead2,
            0 <= headroom1 <= headroom2,
            wh1 == (((primaries1 * shard1) * (1 + replicas1)) * (1000 + overhead1)) * (1000
                + headroom1),
            wh2 == (((primaries2 * shard2) * (1 + replicas2)) * (1000 + overhead2)) * (1000
                + headroom2),
    ;
    assert(b1 * nodes1 <= b2 * nodes2) by (nonlinear_arith)
        requires
            0 < b1 <= b2,
            0 < nodes1 <= nodes2,
    ;
}

} // verus!
