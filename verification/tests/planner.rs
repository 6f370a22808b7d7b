use es_disk_planner::plan_capacity;
use es_disk_planner::Frac;
use es_disk_planner::Plan;
use es_disk_planner::PlanError;

/// The fraction equals the whole number of gigabytes `v` exactly.
fn is_whole(f: &Frac, v: u128) -> bool {
    f.num == v * f.den
}

/// The fraction equals `n / d` exactly (cross-multiplied).
fn is_ratio(f: &Frac, n: u128, d: u128) -> bool {
    f.num * d == n * f.den
}

fn plan_a() -> Plan {
    plan_capacity(5, 10, 1, 50_000, 200, 300, None, 750).unwrap()
}

// Scenario: 5 nodes, 10 primaries, 1 replica, shard=50GB, overhead=20%,
// headroom=30%, buffer=default(=50GB), target=0.75.
#[test]
fn example_numbers_match() {
    let p = plan_a();
    assert!(is_whole(&p.base, 1000));
    assert!(is_whole(&p.with_merge, 1200));
    assert!(is_whole(&p.with_headroom, 1560));
    assert!(is_whole(&p.buffer_total, 250));
    assert!(is_whole(&p.total_cluster, 1810));
    assert!(is_whole(&p.per_node, 362));
    // disk_per_node = 362 / 0.75 = 1448/3 = 482.666...
    assert!(is_ratio(&p.disk_per_node, 1448, 3));
}

#[test]
fn rejects_bad_utilization() {
    assert!(plan_capacity(5, 10, 1, 50_000, 200, 300, None, 0).is_err());
    assert!(plan_capacity(5, 10, 1, 50_000, 200, 300, None, 1_010).is_err());
}

#[test]
fn custom_buffer() {
    let p = plan_capacity(3, 6, 1, 40_000, 100, 200, Some(80_000), 800).unwrap();
    // base = 6*40*(1+1)=480; with_merge=528; with_headroom=633.6;
    // buffer_total=80*3=240; total=873.6
    assert!(is_ratio(&p.total_cluster, 8736, 10));
    // per_node = 291.2; disk_per_node = 291.2/0.8 = 364
    assert!(is_whole(&p.disk_per_node, 364));
}

#[test]
fn custom_buffer_intermediates() {
    let p = plan_capacity(3, 6, 1, 40_000, 100, 200, Some(80_000), 800).unwrap();
    assert!(is_whole(&p.base, 480));
    assert!(is_whole(&p.with_merge, 528));
    assert!(is_ratio(&p.with_headroom, 6336, 10));
    assert!(is_whole(&p.buffer_total, 240));
    assert!(is_ratio(&p.per_node, 2912, 10));
}

#[test]
fn zero_shards_give_degenerate_plan() {
    // Zero primaries are legal: only the buffer term remains.
    let p = plan_capacity(4, 0, 2, 10_000, 200, 300, None, 500).unwrap();
    assert!(is_whole(&p.base, 0));
    assert!(is_whole(&p.with_headroom, 0));
    assert!(is_whole(&p.buffer_total, 40));
    assert!(is_whole(&p.total_cluster, 40));
    assert!(is_whole(&p.per_node, 10));
    assert!(is_whole(&p.disk_per_node, 20));
}

#[test]
fn boundary_utilization_one_accepted() {
    assert!(plan_capacity(5, 10, 1, 50_000, 200, 300, None, 1_000).is_ok());
}

#[test]
fn boundary_utilization_rejected() {
    assert_eq!(
        plan_capacity(5, 10, 1, 50_000, 200, 300, None, 0),
        Err(PlanError::UtilizationOutOfRange)
    );
    assert_eq!(
        plan_capacity(5, 10, 1, 50_000, 200, 300, None, 1_001),
        Err(PlanError::UtilizationOutOfRange)
    );
    assert_eq!(
        plan_capacity(5, 10, 1, 50_000, 200, 300, None, -750),
        Err(PlanError::UtilizationOutOfRange)
    );
}

#[test]
fn boundary_zero_nodes_rejected() {
    assert_eq!(
        plan_capacity(0, 10, 1, 50_000, 200, 300, None, 750),
        Err(PlanError::ZeroNodes)
    );
}

#[test]
fn boundary_shard_size_rejected() {
    assert_eq!(
        plan_capacity(5, 10, 1, 0, 200, 300, Some(50_000), 750),
        Err(PlanError::ShardSizeNotPositive)
    );
    assert_eq!(
        plan_capacity(5, 10, 1, -40_000, 200, 300, Some(50_000), 750),
        Err(PlanError::ShardSizeNotPositive)
    );
}

#[test]
fn boundary_negative_fractions_rejected() {
    assert_eq!(
        plan_capacity(5, 10, 1, 50_000, -10, 300, None, 750),
        Err(PlanError::NegativeFraction)
    );
    assert_eq!(
        plan_capacity(5, 10, 1, 50_000, 200, -10, None, 750),
        Err(PlanError::NegativeFraction)
    );
}

#[test]
fn first_failing_check_wins() {
    // Zero nodes and a bad utilization together: the node check comes first.
    assert_eq!(
        plan_capacity(0, 10, 1, 50_000, 200, 300, None, 0),
        Err(PlanError::ZeroNodes)
    );
    // Bad utilization and a bad shard size together: utilization comes first.
    assert_eq!(
        plan_capacity(5, 10, 1, 0, 200, 300, Some(50_000), 0),
        Err(PlanError::UtilizationOutOfRange)
    );
}

#[test]
fn omitted_buffer_defaults_to_shard_size() {
    let without = plan_capacity(5, 10, 1, 50_000, 200, 300, None, 750).unwrap();
    let with = plan_capacity(5, 10, 1, 50_000, 200, 300, Some(50_000), 750).unwrap();
    assert_eq!(without, with);
    assert_eq!(without.buffer_per_node_milli_gb, 50_000);
}

#[test]
fn totals_never_decrease_when_inputs_grow() {
    let small = plan_a();
    for bigger in [
        plan_capacity(6, 10, 1, 50_000, 200, 300, None, 750).unwrap(),
        plan_capacity(5, 11, 1, 50_000, 200, 300, None, 750).unwrap(),
        plan_capacity(5, 10, 2, 50_000, 200, 300, None, 750).unwrap(),
        plan_capacity(5, 10, 1, 50_001, 200, 300, None, 750).unwrap(),
        plan_capacity(5, 10, 1, 50_000, 201, 300, None, 750).unwrap(),
        plan_capacity(5, 10, 1, 50_000, 200, 301, None, 750).unwrap(),
    ] {
        // Same denominator on both sides, so comparing numerators compares
        // the totals.
        assert_eq!(small.total_cluster.den, bigger.total_cluster.den);
        assert!(small.total_cluster.num <= bigger.total_cluster.num);
    }
}

#[test]
fn error_messages() {
    assert_eq!(PlanError::ZeroNodes.message(), "nodes must be greater than zero");
    assert_eq!(
        PlanError::UtilizationOutOfRange.message(),
        "target_utilization must be in the interval (0, 1]"
    );
    assert_eq!(
        PlanError::NegativeFraction.message(),
        "overhead_merge and headroom must be non-negative"
    );
    assert_eq!(PlanError::ShardSizeNotPositive.message(), "shard_size_gb must be greater than zero");
}

#[test]
fn echoes_inputs() {
    let p = plan_capacity(3, 6, 1, 40_000, 100, 200, Some(80_000), 800).unwrap();
    assert_eq!(p.nodes, 3);
    assert_eq!(p.primaries, 6);
    assert_eq!(p.replicas, 1);
    assert_eq!(p.shard_size_milli_gb, 40_000);
    assert_eq!(p.overhead_merge_milli, 100);
    assert_eq!(p.headroom_milli, 200);
    assert_eq!(p.buffer_per_node_milli_gb, 80_000);
    assert_eq!(p.target_utilization_milli, 800);
}
