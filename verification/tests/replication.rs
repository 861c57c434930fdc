use franz::replication::{parse_replication, ReplicationPlan};

#[test]
fn test_parse_replication_single_element() {
    let mut map = ReplicationPlan::new();
    map.insert(String::from("a"), String::from("b"));
    assert_eq!(parse_replication("a=b"), Ok(map));
}

#[test]
fn test_parse_replication_multiple_elements() {
    let mut map = ReplicationPlan::new();
    map.insert(String::from("a"), String::from("b"));
    map.insert(String::from("c"), String::from("d"));
    map.insert(String::from("e"), String::from("f"));
    assert_eq!(parse_replication("a=b;c=d;e=f"), Ok(map));
}

#[test]
fn test_parse_replication_error_no_elements() {
    assert_eq!(parse_replication(""), Err("no elements"));
}

#[test]
fn test_parse_replication_error_syntax() {
    assert_eq!(parse_replication("a=b=c"), Err("syntax error"));
}

#[test]
fn test_parse_replication_missing_destination() {
    assert_eq!(parse_replication("a=b;c"), Err("syntax error"));
}

#[test]
fn test_parse_replication_repeated_source_keeps_last_destination() {
    let mut map = ReplicationPlan::new();
    map.insert(String::from("a"), String::from("c"));
    assert_eq!(parse_replication("a=b;a=c"), Ok(map));
}

#[test]
fn test_plan_insert_replaces_in_place() {
    let mut plan = ReplicationPlan::new();
    plan.insert(String::from("a"), String::from("b"));
    plan.insert(String::from("c"), String::from("d"));
    plan.insert(String::from("a"), String::from("x"));
    assert_eq!(plan.len(), 2);
    let first = plan.pair(0);
    assert_eq!(first.0, "a");
    assert_eq!(first.1, "x");
    let second = plan.pair(1);
    assert_eq!(second.0, "c");
    assert_eq!(second.1, "d");
}

#[test]
fn test_plans_with_different_pairs_differ() {
    let mut one = ReplicationPlan::new();
    one.insert(String::from("a"), String::from("b"));
    let mut two = ReplicationPlan::new();
    two.insert(String::from("a"), String::from("c"));
    assert!(one != two);
    assert_eq!(one, one);
}
