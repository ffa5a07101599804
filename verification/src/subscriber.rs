//! The subscriber pool: `poolsize` consumer connections, each shared by
//! `concurrency` concurrent receive tasks subscribed to the declared topic
//! set. The pool plan — including the consumer-group assignment policy —
//! and every per-iteration decision of a task are verified here; the
//! subscription call and awaiting messages are the driver's I/O.

use vstd::prelude::*;

use crate::client::group_id_chars;
use crate::client::subscriber_group_id;
use crate::config::TopicSpec;
use crate::metrics::Metrics;

verus! {

/// One subscriber pool slot: the connection's consumer-group identifier,
/// the topics to subscribe, and how many receive tasks share the one
/// connection.
pub struct SubscriberSlot {
    pub slot: usize,
    pub group_id: String,
    pub topics: Vec<String>,
    pub concurrency: usize,
}

/// Total tasks across the slots of a subscriber plan.
pub open spec fn subscriber_task_total(slots: Seq<SubscriberSlot>) -> int
    decreases slots.len(),
{
    if slots.len() == 0 {
        0
    } else {
        subscriber_task_total(slots.drop_last()) + slots.last().concurrency
    }
}

proof fn lemma_uniform_subscriber_total(slots: Seq<SubscriberSlot>, c: int)
    requires
        forall|i: int| 0 <= i < slots.len() ==> (#[trigger] slots[i]).concurrency == c,
    ensures
        subscriber_task_total(slots) == slots.len() * c,
    decreases slots.len(),
{
    if slots.len() == 0 {
    } else {
        lemma_uniform_subscriber_total(slots.drop_last(), c);
        assert(slots[slots.len() - 1].concurrency == c);
        assert(slots.len() * c == (slots.len() - 1) * c + c) by (nonlinear_arith);
    }
}

/// Clones a topic list; the copy reads the same.
fn clone_topics(topics: &Vec<String>) -> (r: Vec<String>)
    ensures
        r@.map_values(|x: String| x@) == topics@.map_values(|x: String| x@),
{
    let mut r: Vec<String> = Vec::new();
    let mut i: usize = 0;
    while i < topics.len()
        invariant
            i <= topics@.len(),
            r@.len() == i,
            forall|j: int| 0 <= j < i ==> (#[trigger] r@[j])@ == topics@[j]@,
        decreases topics@.len() - i,
    {
        r.push(topics[i].clone());
        i += 1;
    }
    proof {
        assert(r@.map_values(|x: String| x@) =~= topics@.map_values(|x: String| x@));
    }
    r
}

/// Builds the subscriber pool plan: `poolsize` consumer connections, each
/// backing `concurrency` receive tasks — poolsize × concurrency tasks in
/// all. Under the single-subscriber-group flag every slot uses group
/// index 0, so all connections compete for partitions as one logical
/// group; otherwise each slot's group is its own index and each connection
/// sees the full topic set independently.
pub fn launch_subscribers(ts: &TopicSpec) -> (plan: Vec<SubscriberSlot>)
    ensures
        plan@.len() == ts.subscriber_poolsize,
        forall|i: int| 0 <= i < plan@.len() ==> {
            &&& (#[trigger] plan@[i]).slot == i
            &&& plan@[i].group_id@ == group_id_chars(ts.single_subscriber_group, i as nat)
            &&& plan@[i].topics@.map_values(|x: String| x@) == ts.topics@.map_values(
                |x: String| x@,
            )
            &&& plan@[i].concurrency == ts.subscriber_concurrency
        },
        subscriber_task_total(plan@) == ts.subscriber_poolsize * ts.subscriber_concurrency,
{
    let poolsize = ts.subscriber_poolsize;
    let mut plan: Vec<SubscriberSlot> = Vec::new();
    let mut i: usize = 0;
    while i < poolsize
        invariant
            i <= poolsize,
            poolsize == ts.subscriber_poolsize,
            plan@.len() == i,
            forall|j: int| 0 <= j < i ==> {
                &&& (#[trigger] plan@[j]).slot == j
                &&& plan@[j].group_id@ == group_id_chars(ts.single_subscriber_group, j as nat)
                &&& plan@[j].topics@.map_values(|x: String| x@) == ts.topics@.map_values(
                    |x: String| x@,
                )
                &&& plan@[j].concurrency == ts.subscriber_concurrency
            },
        decreases poolsize - i,
    {
        let group_id = subscriber_group_id(ts.single_subscriber_group, i);
        let topics = clone_topics(&ts.topics);
        plan.push(
            SubscriberSlot { slot: i, group_id, topics, concurrency: ts.subscriber_concurrency },
        );
        i += 1;
    }
    proof {
        lemma_uniform_subscriber_total(plan@, ts.subscriber_concurrency as int);
    }
    plan
}

/// Whether a subscriber task proceeds into its receive loop.
#[derive(Debug, PartialEq, Eq, Structural)]
pub enum SubscriberStart {
    Proceed,
    Terminate,
}

/// First entry of a subscriber task: the subscribe attempt is counted, then
/// success joins the pool and proceeds into the receive loop, while failure
/// is reported and the task terminates immediately — it never attempts a
/// receive, and sibling tasks are untouched.
pub fn subscriber_on_subscribe(m: &mut Metrics, ok: bool) -> (s: SubscriberStart)
    requires
        old(m).subscribe < u64::MAX,
        old(m).subscribe_ok < u64::MAX,
        old(m).subscribe_ex < u64::MAX,
        old(m).subscriber_curr < u64::MAX,
    ensures
        ok ==> {
            &&& s == SubscriberStart::Proceed
            &&& (*final(m) == Metrics {
                subscribe: (old(m).subscribe + 1) as u64,
                subscribe_ok: (old(m).subscribe_ok + 1) as u64,
                subscriber_curr: (old(m).subscriber_curr + 1) as u64,
                ..*old(m)
            })
        },
        !ok ==> {
            &&& s == SubscriberStart::Terminate
            &&& (*final(m) == Metrics {
                subscribe: (old(m).subscribe + 1) as u64,
                subscribe_ex: (old(m).subscribe_ex + 1) as u64,
                ..*old(m)
            })
        },
{
    m.subscribe = m.subscribe + 1;
    if ok {
        m.subscribe_ok = m.subscribe_ok + 1;
        m.subscriber_curr = m.subscriber_curr + 1;
        SubscriberStart::Proceed
    } else {
        m.subscribe_ex = m.subscribe_ex + 1;
        SubscriberStart::Terminate
    }
}

/// What one receive attempt produced: a well-formed payload, a payload that
/// could not be extracted (malformed or empty), or a broker-level receive
/// error.
pub enum ReceiveOutcome {
    Payload { message: Vec<u8> },
    MalformedPayload,
    EmptyPayload,
    ReceiveFailed,
}

/// What the subscriber task does next.
pub enum SubscriberAction {
    Validate { message: Vec<u8> },
    Continue,
}

/// One receive decision. A well-formed payload is handed to the external
/// validator exactly once, with no counter touched and the validation
/// outcome ignored for control flow. Every failure — malformed payload,
/// empty payload, broker error — counts one receive attempt and one
/// receive error and continues the loop: transient receive errors never
/// terminate the task.
pub fn subscriber_on_receive(m: &mut Metrics, r: ReceiveOutcome) -> (a: SubscriberAction)
    requires
        old(m).receive < u64::MAX,
        old(m).receive_ex < u64::MAX,
    ensures
        (match r {
            ReceiveOutcome::Payload { message } => {
                &&& a == SubscriberAction::Validate { message }
                &&& *final(m) == *old(m)
            },
            _ => {
                &&& a is Continue
                &&& (*final(m) == Metrics {
                    receive: (old(m).receive + 1) as u64,
                    receive_ex: (old(m).receive_ex + 1) as u64,
                    ..*old(m)
                })
            },
        }),
{
    match r {
        ReceiveOutcome::Payload { message } => SubscriberAction::Validate { message },
        _ => {
            m.receive = m.receive + 1;
            m.receive_ex = m.receive_ex + 1;
            SubscriberAction::Continue
        },
    }
}

} // verus!
