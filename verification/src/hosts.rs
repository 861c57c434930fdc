//! Broker host lists, as the operator supplies them on the command line:
//! one comma-separated string of host:port pairs.

use vstd::prelude::*;
use crate::split::{split_on, split_str, views_of};

verus! {

/// Splits the comma-separated broker host list into its entries, in
/// order.
pub fn parse_kafka_hosts(kafka_hosts: &str) -> (hosts: Vec<String>)
    ensures
        views_of(hosts@) == split_on(kafka_hosts@, ','),
{
    split_str(kafka_hosts, ',')
}

} // verus!
