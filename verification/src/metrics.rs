//! The measurement events the core produces: named counters and the latency
//! samples recorded for successful publishes, in nanoseconds. An external
//! sink may mirror these; here they are the model every task contract is
//! stated over, so each step's exact effect on them is proved.

use vstd::prelude::*;

verus! {

/// Counters for both pools plus the publish-latency samples. Counter names
/// follow the operations: attempts, successes and failures of subscribing,
/// publishing and receiving, connection events, and the number of currently
/// active tasks per pool.
pub struct Metrics {
    pub request: u64,
    pub publish: u64,
    pub publish_ok: u64,
    pub publish_ex: u64,
    pub subscribe: u64,
    pub subscribe_ok: u64,
    pub subscribe_ex: u64,
    pub receive: u64,
    pub receive_ex: u64,
    pub publisher_connect: u64,
    pub publisher_curr: u64,
    pub subscriber_curr: u64,
    pub publish_latency_ns: Vec<u64>,
}

impl Metrics {
    /// Everything at zero, no samples yet.
    pub fn new() -> (m: Metrics)
        ensures
            m.request == 0,
            m.publish == 0,
            m.publish_ok == 0,
            m.publish_ex == 0,
            m.subscribe == 0,
            m.subscribe_ok == 0,
            m.subscribe_ex == 0,
            m.receive == 0,
            m.receive_ex == 0,
            m.publisher_connect == 0,
            m.publisher_curr == 0,
            m.subscriber_curr == 0,
            m.publish_latency_ns@.len() == 0,
    {
        Metrics {
            request: 0,
            publish: 0,
            publish_ok: 0,
            publish_ex: 0,
            subscribe: 0,
            subscribe_ok: 0,
            subscribe_ex: 0,
            receive: 0,
            receive_ex: 0,
            publisher_connect: 0,
            publisher_curr: 0,
            subscriber_curr: 0,
            publish_latency_ns: Vec::new(),
        }
    }
}

} // verus!
