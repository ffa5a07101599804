//! Topic provisioning: ensure every declared topic exists with the declared
//! partition count before any publisher or subscriber task starts. The
//! decisions live here as a state machine; the driver performs each returned
//! action against the broker's admin interface and feeds the answer back.

use vstd::prelude::*;

use crate::text::dec_str;
use crate::text::u64_to_dec;

verus! {

/// One topic-creation request: the declared partition count, with the
/// replication factor fixed at 1 (single-broker benchmark assumption).
pub struct NewTopicRequest {
    pub name: String,
    pub partitions: usize,
    pub replication: usize,
}

/// Why provisioning had to give up. Every one of these is fatal to the
/// whole run: a partition-count mismatch silently changes load distribution
/// and would invalidate every measurement.
pub enum ProvisionError {
    CreateFailed { topic: String, detail: String },
    NoResponse { detail: String },
    EmptyMetadata { topic: String },
    PartitionMismatch { topic: String, asked: usize, found: usize },
}

/// What the broker answered to one creation request.
pub enum CreateOutcome {
    Created,
    AlreadyExists,
    Failed { detail: String },
    NoResponse { detail: String },
}

/// The next thing the driver must do for the provisioner.
pub enum ProvisionAction {
    CreateTopic { request: NewTopicRequest },
    FetchMetadata { topic: String },
    Done,
    Fatal { error: ProvisionError },
}

/// Which answer the provisioner is waiting for.
#[derive(PartialEq, Eq, Structural)]
pub enum ProvisionPhase {
    Create,
    Validate,
}

/// Walks the declared topics one by one: request creation, and when a topic
/// already exists, validate its partition count from fetched metadata.
pub struct Provisioner {
    pub topics: Vec<String>,
    pub partitions: usize,
    pub pos: usize,
    pub phase: ProvisionPhase,
}

/// `a` asks for creation of `name` with `partitions` partitions and
/// replication factor 1.
pub open spec fn is_create_action(a: ProvisionAction, name: Seq<char>, partitions: int) -> bool {
    match a {
        ProvisionAction::CreateTopic { request } => {
            &&& request.name@ == name
            &&& request.partitions == partitions
            &&& request.replication == 1
        },
        _ => false,
    }
}

/// `a` asks for the metadata of `name`.
pub open spec fn is_fetch_action(a: ProvisionAction, name: Seq<char>) -> bool {
    match a {
        ProvisionAction::FetchMetadata { topic } => topic@ == name,
        _ => false,
    }
}

/// `a` aborts because creation of `name` failed with `detail`.
pub open spec fn is_fatal_create_failed(a: ProvisionAction, name: Seq<char>, detail: Seq<char>) -> bool {
    match a {
        ProvisionAction::Fatal { error } => match error {
            ProvisionError::CreateFailed { topic, detail: d } => topic@ == name && d@ == detail,
            _ => false,
        },
        _ => false,
    }
}

/// `a` aborts because the admin call produced no response at all.
pub open spec fn is_fatal_no_response(a: ProvisionAction, detail: Seq<char>) -> bool {
    match a {
        ProvisionAction::Fatal { error } => match error {
            ProvisionError::NoResponse { detail: d } => d@ == detail,
            _ => false,
        },
        _ => false,
    }
}

/// `a` aborts because the fetched metadata held no topic at all.
pub open spec fn is_fatal_empty_metadata(a: ProvisionAction, name: Seq<char>) -> bool {
    match a {
        ProvisionAction::Fatal { error } => match error {
            ProvisionError::EmptyMetadata { topic } => topic@ == name,
            _ => false,
        },
        _ => false,
    }
}

/// `a` aborts because `name` exists with `found` partitions where `asked`
/// were declared.
pub open spec fn is_fatal_mismatch(
    a: ProvisionAction,
    name: Seq<char>,
    asked: int,
    found: int,
) -> bool {
    match a {
        ProvisionAction::Fatal { error } => match error {
            ProvisionError::PartitionMismatch { topic, asked: x, found: y } => {
                &&& topic@ == name
                &&& x == asked
                &&& y == found
            },
            _ => false,
        },
        _ => false,
    }
}

impl Provisioner {
    /// Positions up to the topic list's length, and a partition count that
    /// fits the broker protocol's 32-bit signed field.
    pub open spec fn wf(&self) -> bool {
        &&& self.pos <= self.topics@.len()
        &&& 1 <= self.partitions <= 0x7fff_ffff
    }

    /// The topic currently being provisioned.
    pub open spec fn current_topic(&self) -> Seq<char> {
        self.topics@[self.pos as int]@
    }

    /// What a correct next step looks like: a creation request for the
    /// current topic while topics remain, `Done` once all have passed.
    pub open spec fn next_action_ok(&self, a: ProvisionAction) -> bool {
        if self.pos < self.topics@.len() {
            is_create_action(a, self.current_topic(), self.partitions as int)
        } else {
            a is Done
        }
    }

    /// Starts provisioning the given topics, every one with `partitions`
    /// partitions, and returns the first action to perform.
    pub fn begin(topics: Vec<String>, partitions: usize) -> (r: (Provisioner, ProvisionAction))
        requires
            topics@.len() > 0,
            1 <= partitions <= 0x7fff_ffff,
        ensures
            (r.0).wf(),
            (r.0).topics@ == topics@,
            (r.0).partitions == partitions,
            (r.0).pos == 0,
            (r.0).phase is Create,
            (r.0).next_action_ok(r.1),
    {
        let p = Provisioner { topics, partitions, pos: 0, phase: ProvisionPhase::Create };
        let a = p.next_create_action();
        (p, a)
    }

    fn next_create_action(&self) -> (a: ProvisionAction)
        requires
            self.wf(),
        ensures
            self.next_action_ok(a),
    {
        if self.pos < self.topics.len() {
            let name = self.topics[self.pos].clone();
            ProvisionAction::CreateTopic {
                request: NewTopicRequest { name, partitions: self.partitions, replication: 1 },
            }
        } else {
            ProvisionAction::Done
        }
    }

    /// Feeds back the broker's answer to the pending creation request.
    /// Success moves on to the next topic; an already-existing topic falls
    /// back to validation; anything else is fatal.
    pub fn on_create_result(&mut self, outcome: CreateOutcome) -> (a: ProvisionAction)
        requires
            old(self).wf(),
            old(self).phase is Create,
            old(self).pos < old(self).topics@.len(),
        ensures
            final(self).wf(),
            final(self).topics@ == old(self).topics@,
            final(self).partitions == old(self).partitions,
            (match outcome {
                CreateOutcome::Created => {
                    &&& final(self).pos == old(self).pos + 1
                    &&& final(self).phase is Create
                    &&& final(self).next_action_ok(a)
                },
                CreateOutcome::AlreadyExists => {
                    &&& final(self).pos == old(self).pos
                    &&& final(self).phase is Validate
                    &&& is_fetch_action(a, old(self).current_topic())
                },
                CreateOutcome::Failed { detail } => {
                    &&& final(self).pos == old(self).pos
                    &&& is_fatal_create_failed(a, old(self).current_topic(), detail@)
                },
                CreateOutcome::NoResponse { detail } => {
                    &&& final(self).pos == old(self).pos
                    &&& is_fatal_no_response(a, detail@)
                },
            }),
    {
        match outcome {
            CreateOutcome::Created => {
                let n: usize = self.topics.len();
                proof {
                    assert(self.pos < n);
                }
                self.pos = self.pos + 1;
                self.next_create_action()
            },
            CreateOutcome::AlreadyExists => {
                self.phase = ProvisionPhase::Validate;
                let topic = self.topics[self.pos].clone();
                ProvisionAction::FetchMetadata { topic }
            },
            CreateOutcome::Failed { detail } => {
                let topic = self.topics[self.pos].clone();
                ProvisionAction::Fatal { error: ProvisionError::CreateFailed { topic, detail } }
            },
            CreateOutcome::NoResponse { detail } => {
                ProvisionAction::Fatal { error: ProvisionError::NoResponse { detail } }
            },
        }
    }

    /// Feeds back the fetched metadata for the current topic: the partition
    /// counts of the topics the broker reported. Empty metadata and any
    /// partition-count difference abort; a matching count moves on.
    pub fn on_metadata(&mut self, partition_counts: &Vec<usize>) -> (a: ProvisionAction)
        requires
            old(self).wf(),
            old(self).phase is Validate,
            old(self).pos < old(self).topics@.len(),
        ensures
            final(self).wf(),
            final(self).topics@ == old(self).topics@,
            final(self).partitions == old(self).partitions,
            partition_counts@.len() == 0 ==> {
                &&& is_fatal_empty_metadata(a, old(self).current_topic())
                &&& final(self).pos == old(self).pos
            },
            partition_counts@.len() > 0 && partition_counts@[0] != old(self).partitions ==> {
                &&& is_fatal_mismatch(
                    a,
                    old(self).current_topic(),
                    old(self).partitions as int,
                    partition_counts@[0] as int,
                )
                &&& final(self).pos == old(self).pos
            },
            partition_counts@.len() > 0 && partition_counts@[0] == old(self).partitions ==> {
                &&& final(self).pos == old(self).pos + 1
                &&& final(self).phase is Create
                &&& final(self).next_action_ok(a)
            },
    {
        match validate_topic(&self.topics[self.pos], self.partitions, partition_counts) {
            Ok(()) => {
                self.phase = ProvisionPhase::Create;
                let n: usize = self.topics.len();
                proof {
                    assert(self.pos < n);
                }
                self.pos = self.pos + 1;
                self.next_create_action()
            },
            Err(error) => ProvisionAction::Fatal { error },
        }
    }
}

/// Checks fetched metadata against the declared partition count: succeeds
/// exactly when the metadata reports at least one topic and its partition
/// count equals the declared one.
pub fn validate_topic(topic: &String, declared: usize, partition_counts: &Vec<usize>) -> (r: Result<
    (),
    ProvisionError,
>)
    ensures
        r is Ok <==> partition_counts@.len() > 0 && partition_counts@[0] == declared,
        (match r {
            Ok(()) => true,
            Err(e) => match e {
                ProvisionError::EmptyMetadata { topic: t } => {
                    &&& partition_counts@.len() == 0
                    &&& t@ == topic@
                },
                ProvisionError::PartitionMismatch { topic: t, asked, found } => {
                    &&& partition_counts@.len() > 0
                    &&& partition_counts@[0] != declared
                    &&& t@ == topic@
                    &&& asked == declared
                    &&& found == partition_counts@[0]
                },
                _ => false,
            },
        }),
{
    if partition_counts.len() == 0 {
        Err(ProvisionError::EmptyMetadata { topic: topic.clone() })
    } else {
        let found = partition_counts[0];
        if found != declared {
            Err(ProvisionError::PartitionMismatch { topic: topic.clone(), asked: declared, found })
        } else {
            Ok(())
        }
    }
}

/// The human-readable text for a fatal provisioning error, identifying the
/// offending topic; the driver prints it to stderr and exits non-zero.
pub open spec fn message_chars(e: ProvisionError) -> Seq<char> {
    match e {
        ProvisionError::CreateFailed { topic, detail } => "Kafka: failed to create the topic "@
            + topic@ + ":"@ + detail@ + " "@,
        ProvisionError::NoResponse { detail } => "Kafka: no response when creating the topic ("@
            + detail@ + ")"@,
        ProvisionError::EmptyMetadata { topic } =>
            "Kafka topic validation failure: empty topic in metadata for "@ + topic@,
        ProvisionError::PartitionMismatch { topic, asked, found } =>
            "Kafka topic validation failure: asked "@ + dec_str(asked as nat)
            + " partitions found "@ + dec_str(found as nat) + " in topic "@ + topic@
            + "\nPlease delete or recreate the topic "@ + topic@,
    }
}

impl ProvisionError {
    /// Renders the error, exactly as `message_chars` describes.
    pub fn message(&self) -> (s: String)
        ensures
            s@ == message_chars(*self),
    {
        match self {
            ProvisionError::CreateFailed { topic, detail } => {
                let mut s = String::new();
                s.append("Kafka: failed to create the topic ");
                s.append(topic.as_str());
                s.append(":");
                s.append(detail.as_str());
                s.append(" ");
                proof {
                    assert(s@ =~= message_chars(*self));
                }
                s
            },
            ProvisionError::NoResponse { detail } => {
                let mut s = String::new();
                s.append("Kafka: no response when creating the topic (");
                s.append(detail.as_str());
                s.append(")");
                proof {
                    assert(s@ =~= message_chars(*self));
                }
                s
            },
            ProvisionError::EmptyMetadata { topic } => {
                let mut s = String::new();
                s.append("Kafka topic validation failure: empty topic in metadata for ");
                s.append(topic.as_str());
                proof {
                    assert(s@ =~= message_chars(*self));
                }
                s
            },
            ProvisionError::PartitionMismatch { topic, asked, found } => {
                let asked_text = u64_to_dec(*asked as u64);
                let found_text = u64_to_dec(*found as u64);
                let mut s = String::new();
                s.append("Kafka topic validation failure: asked ");
                s.append(asked_text.as_str());
                s.append(" partitions found ");
                s.append(found_text.as_str());
                s.append(" in topic ");
                s.append(topic.as_str());
                s.append("\nPlease delete or recreate the topic ");
                s.append(topic.as_str());
                proof {
                    assert(s@ =~= message_chars(*self));
                }
                s
            },
        }
    }
}

/// Every creation request provisioning ever issues carries exactly the
/// declared partition count and a replication factor of 1.
pub proof fn lemma_create_requests_follow_declaration(p: Provisioner, a: ProvisionAction)
    requires
        p.wf(),
        p.next_action_ok(a),
    ensures
        (match a {
            ProvisionAction::CreateTopic { request } => {
                &&& request.partitions == p.partitions
                &&& request.replication == 1
            },
            _ => true,
        }),
{
}

} // verus!
