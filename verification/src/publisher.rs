//! The publisher pool: `poolsize` producer connections, each shared by
//! `concurrency` concurrent publish tasks that competitively drain one
//! shared work-item queue. The pool plan and every per-iteration decision
//! of a task are verified here; awaiting the channel and the broker send
//! are the driver's I/O.

use vstd::prelude::*;

use crate::config::Config;
use crate::metrics::Metrics;
use crate::queue::WorkItem;

verus! {

/// One publisher pool slot: the index of the producer connection to build
/// and how many publish tasks share that one connection.
pub struct PublisherSlot {
    pub slot: usize,
    pub concurrency: usize,
}

/// Total tasks across the slots of a publisher plan.
pub open spec fn publisher_task_total(slots: Seq<PublisherSlot>) -> int
    decreases slots.len(),
{
    if slots.len() == 0 {
        0
    } else {
        publisher_task_total(slots.drop_last()) + slots.last().concurrency
    }
}

proof fn lemma_uniform_publisher_total(slots: Seq<PublisherSlot>, c: int)
    requires
        forall|i: int| 0 <= i < slots.len() ==> (#[trigger] slots[i]).concurrency == c,
    ensures
        publisher_task_total(slots) == slots.len() * c,
    decreases slots.len(),
{
    if slots.len() == 0 {
    } else {
        lemma_uniform_publisher_total(slots.drop_last(), c);
        assert(slots[slots.len() - 1].concurrency == c);
        assert(slots.len() * c == (slots.len() - 1) * c + c) by (nonlinear_arith);
    }
}

/// Builds the publisher pool plan: `poolsize` producer connections, each
/// backing `concurrency` publish tasks — poolsize × concurrency tasks in
/// all — and one connection event counted per slot. The driver builds one
/// producer per slot (see `producer_client_config`) and spawns the slot's
/// tasks against that single shared connection.
pub fn launch_publishers(config: &Config, m: &mut Metrics) -> (plan: Vec<PublisherSlot>)
    requires
        old(m).publisher_connect + config.pubsub.publisher_poolsize <= u64::MAX,
    ensures
        plan@.len() == config.pubsub.publisher_poolsize,
        forall|i: int| 0 <= i < plan@.len() ==> {
            &&& (#[trigger] plan@[i]).slot == i
            &&& plan@[i].concurrency == config.pubsub.publisher_concurrency
        },
        publisher_task_total(plan@) == config.pubsub.publisher_poolsize
            * config.pubsub.publisher_concurrency,
        (*final(m) == Metrics {
            publisher_connect: (old(m).publisher_connect
                + config.pubsub.publisher_poolsize) as u64,
            ..*old(m)
        }),
{
    let poolsize = config.pubsub.publisher_poolsize;
    let concurrency = config.pubsub.publisher_concurrency;
    let mut plan: Vec<PublisherSlot> = Vec::new();
    let mut i: usize = 0;
    while i < poolsize
        invariant
            i <= poolsize,
            poolsize == config.pubsub.publisher_poolsize,
            concurrency == config.pubsub.publisher_concurrency,
            old(m).publisher_connect + poolsize <= u64::MAX,
            plan@.len() == i,
            forall|j: int| 0 <= j < i ==> {
                &&& (#[trigger] plan@[j]).slot == j
                &&& plan@[j].concurrency == concurrency
            },
            (*m == Metrics {
                publisher_connect: (old(m).publisher_connect + i) as u64,
                ..*old(m)
            }),
        decreases poolsize - i,
    {
        m.publisher_connect = m.publisher_connect + 1;
        plan.push(PublisherSlot { slot: i, concurrency });
        i += 1;
    }
    proof {
        lemma_uniform_publisher_total(plan@, concurrency as int);
    }
    plan
}

/// What a publisher task does with what the work channel handed it.
pub enum PublisherAction {
    Send { topic: String, key: Vec<u8>, message: Vec<u8> },
    TerminateClosed,
}

/// A publisher task joins the pool.
pub fn publisher_task_started(m: &mut Metrics)
    requires
        old(m).publisher_curr < u64::MAX,
    ensures
        (*final(m) == Metrics { publisher_curr: (old(m).publisher_curr + 1) as u64, ..*old(m) }),
{
    m.publisher_curr = m.publisher_curr + 1;
}

/// A publisher task leaves the pool.
pub fn publisher_task_finished(m: &mut Metrics)
    requires
        old(m).publisher_curr > 0,
    ensures
        (*final(m) == Metrics { publisher_curr: (old(m).publisher_curr - 1) as u64, ..*old(m) }),
{
    m.publisher_curr = m.publisher_curr - 1;
}

/// One receive from the shared work channel. `None` means the channel is
/// closed and no more items will ever arrive: the task terminates with a
/// reported error — the only way a publisher task exits before shutdown is
/// requested — and sibling tasks are untouched. An item counts one request
/// and one publish attempt and is dispatched as a send of exactly its
/// fields, with no partition or timestamp override.
pub fn publisher_on_item(m: &mut Metrics, item: Option<WorkItem>) -> (a: PublisherAction)
    requires
        old(m).request < u64::MAX,
        old(m).publish < u64::MAX,
    ensures
        (match item {
            None => {
                &&& a is TerminateClosed
                &&& *final(m) == *old(m)
            },
            Some(it) => {
                &&& (*final(m) == Metrics {
                    request: (old(m).request + 1) as u64,
                    publish: (old(m).publish + 1) as u64,
                    ..*old(m)
                })
                &&& (match it {
                    WorkItem::Publish { topic, key, message } => a == PublisherAction::Send {
                        topic,
                        key,
                        message,
                    },
                })
            },
        }),
{
    match item {
        None => PublisherAction::TerminateClosed,
        Some(it) => {
            m.request = m.request + 1;
            m.publish = m.publish + 1;
            match it {
                WorkItem::Publish { topic, key, message } => PublisherAction::Send {
                    topic,
                    key,
                    message,
                },
            }
        },
    }
}

/// Elapsed nanoseconds between two timestamps, zero when the clock read
/// backwards.
pub open spec fn elapsed_ns(start: u64, stop: u64) -> u64 {
    if stop >= start {
        (stop - start) as u64
    } else {
        0
    }
}

/// The result of one dispatched publish. Success counts one success and
/// records exactly one latency sample — the time elapsed between the two
/// timestamps; failure counts one failure and records nothing. The loop
/// continues either way: failed publishes are measured, never retried.
pub fn publisher_on_send_result(m: &mut Metrics, ok: bool, start_ns: u64, stop_ns: u64)
    requires
        old(m).publish_ok < u64::MAX,
        old(m).publish_ex < u64::MAX,
    ensures
        ok ==> {
            &&& (*final(m) == Metrics {
                publish_ok: (old(m).publish_ok + 1) as u64,
                publish_latency_ns: final(m).publish_latency_ns,
                ..*old(m)
            })
            &&& final(m).publish_latency_ns@ == old(m).publish_latency_ns@.push(
                elapsed_ns(start_ns, stop_ns),
            )
        },
        !ok ==> (*final(m) == Metrics { publish_ex: (old(m).publish_ex + 1) as u64, ..*old(m) }),
{
    if ok {
        let elapsed: u64 = if stop_ns >= start_ns {
            stop_ns - start_ns
        } else {
            0
        };
        m.publish_ok = m.publish_ok + 1;
        m.publish_latency_ns.push(elapsed);
    } else {
        m.publish_ex = m.publish_ex + 1;
    }
}

} // verus!
