use es_disk_planner::plan_capacity;

#[test]
fn report_for_default_buffer_scenario() {
    let p = plan_capacity(5, 10, 1, 50_000, 200, 300, None, 750).unwrap();
    let expected = "\
=== Elasticsearch Disk Capacity Planner ===\n\
Nodes: 5\n\
Primary shards: 10\n\
Replicas per shard: 1\n\
Shard size: 50.0 GB | Overhead merge: 20% | Headroom: 30%\n\
Relocation buffer per node: 50.0 GB\n\
Target disk utilization: 75%\n\
\n\
Base (primaries+replicas): 1000.0 GB (1.00 TB)\n\
+ Merge overhead:         1200.0 GB (1.20 TB)\n\
+ Headroom:               1560.0 GB (1.56 TB)\n\
+ Total buffer:           250.0 GB (0.25 TB)\n\
= Cluster total:          1810.0 GB (1.81 TB)\n\
\n\
Per node (recommended):   362.0 GB (0.36 TB)\n\
Disk per node (<~75%): 482.7 GB (0.48 TB)\n";
    assert_eq!(p.render_report(), expected);
}

#[test]
fn report_for_custom_buffer_scenario() {
    let p = plan_capacity(3, 6, 1, 40_000, 100, 200, Some(80_000), 800).unwrap();
    let expected = "\
=== Elasticsearch Disk Capacity Planner ===\n\
Nodes: 3\n\
Primary shards: 6\n\
Replicas per shard: 1\n\
Shard size: 40.0 GB | Overhead merge: 10% | Headroom: 20%\n\
Relocation buffer per node: 80.0 GB\n\
Target disk utilization: 80%\n\
\n\
Base (primaries+replicas): 480.0 GB (0.48 TB)\n\
+ Merge overhead:         528.0 GB (0.53 TB)\n\
+ Headroom:               633.6 GB (0.63 TB)\n\
+ Total buffer:           240.0 GB (0.24 TB)\n\
= Cluster total:          873.6 GB (0.87 TB)\n\
\n\
Per node (recommended):   291.2 GB (0.29 TB)\n\
Disk per node (<~80%): 364.0 GB (0.36 TB)\n";
    assert_eq!(p.render_report(), expected);
}

#[test]
fn report_rounds_fractional_digits() {
    // disk_per_node = 482.666... renders as 482.7; its terabyte value
    // 0.4826... renders as 0.48.
    let p = plan_capacity(5, 10, 1, 50_000, 200, 300, None, 750).unwrap();
    let report = p.render_report();
    assert!(report.contains("482.7 GB"));
    assert!(report.contains("(0.48 TB)"));
}
