use pubsub_core::provision::{
    validate_topic, CreateOutcome, ProvisionAction, ProvisionError, Provisioner,
};

fn topics(names: &[&str]) -> Vec<String> {
    names.iter().map(|n| String::from(*n)).collect()
}

#[test]
fn creation_requests_carry_declared_partitions_and_replication_one() {
    let (_p, action) = Provisioner::begin(topics(&["t1"]), 4);
    match action {
        ProvisionAction::CreateTopic { request } => {
            assert_eq!(request.name.as_str(), "t1");
            assert_eq!(request.partitions, 4);
            assert_eq!(request.replication, 1);
        }
        _ => panic!("expected a creation request"),
    }
}

#[test]
fn absent_topic_is_created_then_done() {
    // Declare "t1" with 4 partitions against a broker without it: the
    // creation request succeeds and provisioning finishes.
    let (mut p, action) = Provisioner::begin(topics(&["t1"]), 4);
    assert!(matches!(action, ProvisionAction::CreateTopic { .. }));
    let next = p.on_create_result(CreateOutcome::Created);
    assert!(matches!(next, ProvisionAction::Done));
}

#[test]
fn existing_topic_with_matching_count_validates_without_abort() {
    // Re-run the same declaration: "t1" already exists with 4 partitions,
    // so validation runs and succeeds.
    let (mut p, _) = Provisioner::begin(topics(&["t1"]), 4);
    let next = p.on_create_result(CreateOutcome::AlreadyExists);
    match next {
        ProvisionAction::FetchMetadata { topic } => assert_eq!(topic.as_str(), "t1"),
        _ => panic!("expected a metadata fetch"),
    }
    let counts = vec![4usize];
    let done = p.on_metadata(&counts);
    assert!(matches!(done, ProvisionAction::Done));
}

#[test]
fn partition_mismatch_aborts() {
    // Declare "t1" with 8 partitions while it exists with 4: validation
    // detects 4 != 8 and the run aborts.
    let (mut p, _) = Provisioner::begin(topics(&["t1"]), 8);
    let _ = p.on_create_result(CreateOutcome::AlreadyExists);
    let counts = vec![4usize];
    let fatal = p.on_metadata(&counts);
    match fatal {
        ProvisionAction::Fatal { error } => match error {
            ProvisionError::PartitionMismatch { topic, asked, found } => {
                assert_eq!(topic.as_str(), "t1");
                assert_eq!(asked, 8);
                assert_eq!(found, 4);
            }
            _ => panic!("expected a partition mismatch"),
        },
        _ => panic!("expected a fatal action"),
    }
}

#[test]
fn empty_metadata_aborts() {
    let (mut p, _) = Provisioner::begin(topics(&["t1"]), 4);
    let _ = p.on_create_result(CreateOutcome::AlreadyExists);
    let counts: Vec<usize> = Vec::new();
    let fatal = p.on_metadata(&counts);
    match fatal {
        ProvisionAction::Fatal { error } => {
            assert!(matches!(error, ProvisionError::EmptyMetadata { .. }));
        }
        _ => panic!("expected a fatal action"),
    }
}

#[test]
fn other_creation_failure_aborts() {
    let (mut p, _) = Provisioner::begin(topics(&["t1"]), 4);
    let fatal = p.on_create_result(CreateOutcome::Failed {
        detail: String::from("InvalidReplicationFactor"),
    });
    match fatal {
        ProvisionAction::Fatal { error } => match error {
            ProvisionError::CreateFailed { topic, detail } => {
                assert_eq!(topic.as_str(), "t1");
                assert_eq!(detail.as_str(), "InvalidReplicationFactor");
            }
            _ => panic!("expected a creation failure"),
        },
        _ => panic!("expected a fatal action"),
    }
}

#[test]
fn admin_no_response_aborts() {
    let (mut p, _) = Provisioner::begin(topics(&["t1"]), 4);
    let fatal = p.on_create_result(CreateOutcome::NoResponse {
        detail: String::from("operation timed out"),
    });
    assert!(matches!(
        fatal,
        ProvisionAction::Fatal { error: ProvisionError::NoResponse { .. } }
    ));
}

#[test]
fn provisioning_walks_every_declared_topic() {
    let (mut p, first) = Provisioner::begin(topics(&["a", "b", "c"]), 2);
    match first {
        ProvisionAction::CreateTopic { request } => assert_eq!(request.name.as_str(), "a"),
        _ => panic!("expected a creation request"),
    }
    let second = p.on_create_result(CreateOutcome::Created);
    match second {
        ProvisionAction::CreateTopic { request } => assert_eq!(request.name.as_str(), "b"),
        _ => panic!("expected a creation request"),
    }
    let third = p.on_create_result(CreateOutcome::AlreadyExists);
    match third {
        ProvisionAction::FetchMetadata { topic } => assert_eq!(topic.as_str(), "b"),
        _ => panic!("expected a metadata fetch"),
    }
    let counts = vec![2usize];
    let fourth = p.on_metadata(&counts);
    match fourth {
        ProvisionAction::CreateTopic { request } => assert_eq!(request.name.as_str(), "c"),
        _ => panic!("expected a creation request"),
    }
    let done = p.on_create_result(CreateOutcome::Created);
    assert!(matches!(done, ProvisionAction::Done));
}

#[test]
fn validate_topic_succeeds_only_on_matching_count() {
    let name = String::from("t1");
    assert!(validate_topic(&name, 4, &vec![4usize]).is_ok());
    assert!(validate_topic(&name, 4, &vec![8usize]).is_err());
    assert!(validate_topic(&name, 4, &Vec::new()).is_err());
}

#[test]
fn mismatch_message_names_topic_and_counts() {
    let e = ProvisionError::PartitionMismatch {
        topic: String::from("t1"),
        asked: 8,
        found: 4,
    };
    assert_eq!(
        e.message().as_str(),
        "Kafka topic validation failure: asked 8 partitions found 4 in topic t1\nPlease delete or recreate the topic t1"
    );
}

#[test]
fn create_failed_message_names_topic_and_detail() {
    let e = ProvisionError::CreateFailed {
        topic: String::from("t2"),
        detail: String::from("boom"),
    };
    assert_eq!(e.message().as_str(), "Kafka: failed to create the topic t2:boom ");
    let n = ProvisionError::NoResponse { detail: String::from("timed out") };
    assert_eq!(n.message().as_str(), "Kafka: no response when creating the topic (timed out)");
    let m = ProvisionError::EmptyMetadata { topic: String::from("t3") };
    assert_eq!(
        m.message().as_str(),
        "Kafka topic validation failure: empty topic in metadata for t3"
    );
}
