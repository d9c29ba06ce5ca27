use blizzardup_aws::errors::WorkflowError;
use blizzardup_aws::identity::Identity;
use blizzardup_aws::naming::build_param;
use blizzardup_aws::naming::Param;
use blizzardup_aws::plan::asg_wait_secs;
use blizzardup_aws::plan::lookup_output;
use blizzardup_aws::plan::validate;
use blizzardup_aws::plan::InstallArtifacts;
use blizzardup_aws::plan::Machine;
use blizzardup_aws::plan::NetworkRecord;
use blizzardup_aws::plan::Plan;
use blizzardup_aws::plan::Records;
use blizzardup_aws::poller::StackStatus;
use blizzardup_aws::sequencer::Action;
use blizzardup_aws::sequencer::Event;
use blizzardup_aws::sequencer::TemplateKind;
use blizzardup_aws::sequencer::Workflow;

fn identity_a() -> Identity {
    Identity {
        account_id: String::from("111111111111"),
        role_arn: String::from("arn:aws:iam::111111111111:role/alpha"),
        user_id: String::from("AIDAALPHA"),
    }
}

fn identity_b() -> Identity {
    Identity {
        account_id: String::from("222222222222"),
        role_arn: String::from("arn:aws:iam::222222222222:role/beta"),
        user_id: String::from("AIDABETA"),
    }
}

fn empty_records() -> Records {
    Records {
        bucket: None,
        ec2_key_path: None,
        instance_profile_arn: None,
        network: None,
        asg_logical_id: None,
    }
}

fn three_node_plan() -> Plan {
    Plan {
        id: String::from("demo"),
        region: String::from("us-west-2"),
        s3_bucket: String::from("demo-bucket"),
        machine: Machine {
            nodes: 3,
            arch: String::from("amd64"),
            instance_types: vec![String::from("c5.large"), String::from("m5.large")],
            use_spot_instance: false,
        },
        install_artifacts: InstallArtifacts {
            blizzard_bin: Some(String::from("./blizzard")),
        },
        identity: None,
        records: empty_records(),
    }
}

fn populated_records() -> Records {
    Records {
        bucket: Some(String::from("demo-bucket")),
        ec2_key_path: Some(String::from("plans/demo-ec2-access.key")),
        instance_profile_arn: Some(String::from("arn:aws:iam::1:instance-profile/demo")),
        network: Some(NetworkRecord {
            vpc_id: String::from("vpc-1"),
            security_group_id: String::from("sg-1"),
            public_subnet_ids: vec![String::from("s-1"), String::from("s-2")],
        }),
        asg_logical_id: Some(String::from("demo-asg-group")),
    }
}

fn assert_param(p: &Param, key: &str, value: &str) {
    assert_eq!(p.key, key);
    assert_eq!(p.value, value);
}

fn is_creation(a: &Action) -> bool {
    matches!(
        a,
        Action::CreateBucket { .. } | Action::CreateKeyPair { .. } | Action::CreateStack { .. }
    )
}

#[test]
fn end_to_end_three_nodes() {
    let mut w = Workflow::new(three_node_plan(), String::from("plans/demo.yaml")).unwrap();

    let a = w.step(Event::Start);
    assert!(matches!(a, Action::FetchIdentity));

    let a = w.step(Event::GotIdentity(identity_a()));
    assert!(matches!(a, Action::PersistLedger { remote: false }));
    assert_eq!(w.plan.identity, Some(identity_a()));

    let a = w.step(Event::Completed);
    match a {
        Action::CreateBucket { ref bucket } => assert_eq!(bucket, "demo-bucket"),
        _ => panic!("expected bucket creation"),
    }

    let a = w.step(Event::Completed);
    assert!(matches!(a, Action::PersistLedger { remote: true }));
    assert_eq!(w.plan.records.bucket, Some(String::from("demo-bucket")));

    let a = w.step(Event::Completed);
    match a {
        Action::PutObject { ref local_path, ref bucket, ref key } => {
            assert_eq!(local_path, "./blizzard");
            assert_eq!(bucket, "demo-bucket");
            assert_eq!(key, "demo/install/blizzard");
        },
        _ => panic!("expected artifact upload"),
    }

    let a = w.step(Event::Completed);
    match a {
        Action::CreateKeyPair { ref key_name, ref key_path } => {
            assert_eq!(key_name, "demo-ec2-key");
            assert_eq!(key_path, "plans/demo-ec2-access.key");
        },
        _ => panic!("expected key-pair creation"),
    }

    let a = w.step(Event::Completed);
    match a {
        Action::PutObject { ref local_path, ref key, .. } => {
            assert_eq!(local_path, "plans/demo-ec2-access.key");
            assert_eq!(key, "demo/ec2-access.key");
        },
        _ => panic!("expected key upload"),
    }

    let a = w.step(Event::Completed);
    assert!(matches!(a, Action::PersistLedger { remote: true }));
    assert_eq!(
        w.plan.records.ec2_key_path,
        Some(String::from("plans/demo-ec2-access.key"))
    );

    let a = w.step(Event::Completed);
    match a {
        Action::CreateStack { ref name, template, named_iam, on_failure_delete, ref parameters } => {
            assert_eq!(name, "demo-ec2-instance-role");
            assert_eq!(template, TemplateKind::Ec2InstanceRole);
            assert!(named_iam);
            assert!(on_failure_delete);
            assert_eq!(parameters.len(), 2);
            assert_param(&parameters[0], "Id", "demo");
            assert_param(&parameters[1], "S3BucketName", "demo-bucket");
        },
        _ => panic!("expected role stack creation"),
    }

    let a = w.step(Event::Completed);
    match a {
        Action::PollStack { ref name, target, timeout_secs, interval_secs, settle_secs } => {
            assert_eq!(name, "demo-ec2-instance-role");
            assert_eq!(target, StackStatus::CreateComplete);
            assert_eq!(timeout_secs, 500);
            assert_eq!(interval_secs, 30);
            assert_eq!(settle_secs, 10);
        },
        _ => panic!("expected role poll"),
    }

    let outs = vec![build_param("InstanceProfileArn", "arn:aws:iam::1:instance-profile/demo")];
    let a = w.step(Event::StackReady(outs));
    assert!(matches!(a, Action::PersistLedger { remote: true }));
    assert_eq!(
        w.plan.records.instance_profile_arn,
        Some(String::from("arn:aws:iam::1:instance-profile/demo"))
    );

    let a = w.step(Event::Completed);
    match a {
        Action::CreateStack { ref name, template, named_iam, ref parameters, .. } => {
            assert_eq!(name, "demo-vpc");
            assert_eq!(template, TemplateKind::Vpc);
            assert!(!named_iam);
            assert_eq!(parameters.len(), 6);
            assert_param(&parameters[0], "Id", "demo");
            assert_param(&parameters[1], "VpcCidr", "10.0.0.0/16");
            assert_param(&parameters[5], "IngressIpv4Range", "0.0.0.0/0");
        },
        _ => panic!("expected network stack creation"),
    }

    let a = w.step(Event::Completed);
    match a {
        Action::PollStack { ref name, timeout_secs, .. } => {
            assert_eq!(name, "demo-vpc");
            assert_eq!(timeout_secs, 300);
        },
        _ => panic!("expected network poll"),
    }

    let outs = vec![
        build_param("VpcId", "vpc-1"),
        build_param("SecurityGroupId", "sg-1"),
        build_param("PublicSubnetIds", "s-1,s-2,s-3"),
    ];
    let a = w.step(Event::StackReady(outs));
    assert!(matches!(a, Action::PersistLedger { remote: true }));
    let network = w.plan.records.network.as_ref().unwrap();
    assert_eq!(network.vpc_id, "vpc-1");
    assert_eq!(network.security_group_id, "sg-1");
    assert_eq!(network.public_subnet_ids, vec!["s-1", "s-2", "s-3"]);

    let a = w.step(Event::Completed);
    match a {
        Action::CreateStack { ref name, template, named_iam, ref parameters, .. } => {
            assert_eq!(name, "demo-asg-blizzards");
            assert_eq!(template, TemplateKind::AsgBlizzards);
            assert!(!named_iam);
            assert_eq!(parameters.len(), 15);
            assert_param(&parameters[0], "Id", "demo");
            assert_param(&parameters[1], "NodeKind", "worker");
            assert_param(&parameters[2], "S3BucketName", "demo-bucket");
            assert_param(&parameters[3], "Ec2KeyPairName", "demo-ec2-key");
            assert_param(
                &parameters[4],
                "InstanceProfileArn",
                "arn:aws:iam::1:instance-profile/demo",
            );
            assert_param(&parameters[5], "SecurityGroupId", "sg-1");
            assert_param(&parameters[6], "PublicSubnetIds", "s-1,s-2,s-3");
            assert_param(&parameters[7], "Arch", "amd64");
            assert_param(&parameters[8], "InstanceTypes", "c5.large,m5.large");
            assert_param(&parameters[9], "InstanceTypesCount", "2");
            assert_param(&parameters[10], "BlizzardDownloadSource", "s3");
            assert_param(&parameters[11], "AsgSpotInstance", "false");
            assert_param(&parameters[12], "OnDemandPercentageAboveBaseCapacity", "100");
            assert_param(&parameters[13], "AsgDesiredCapacity", "3");
            assert_param(&parameters[14], "AsgMaxSize", "4");
        },
        _ => panic!("expected autoscaling-group stack creation"),
    }

    let a = w.step(Event::Completed);
    match a {
        Action::PollStack { ref name, timeout_secs, interval_secs, settle_secs, .. } => {
            assert_eq!(name, "demo-asg-blizzards");
            assert_eq!(timeout_secs, 700 + 60 * 3);
            assert_eq!(interval_secs, 30);
            assert_eq!(settle_secs, 60);
        },
        _ => panic!("expected autoscaling-group poll"),
    }

    let outs = vec![build_param("AsgLogicalId", "demo-asg-group")];
    let a = w.step(Event::StackReady(outs));
    assert!(matches!(a, Action::PersistLedger { remote: true }));
    assert_eq!(
        w.plan.records.asg_logical_id,
        Some(String::from("demo-asg-group"))
    );

    let a = w.step(Event::Completed);
    match a {
        Action::ListGroup { ref group, desired, max_attempts, delay_secs } => {
            assert_eq!(group, "demo-asg-group");
            assert_eq!(desired, 3);
            assert_eq!(max_attempts, 20);
            assert_eq!(delay_secs, 30);
        },
        _ => panic!("expected group listing"),
    }

    let a = w.step(Event::Listed(3));
    assert!(matches!(a, Action::PersistLedger { remote: true }));

    let a = w.step(Event::Completed);
    assert!(matches!(a, Action::Finish { emit_teardown: false }));

    assert!(w.plan.records.bucket.is_some());
    assert!(w.plan.records.ec2_key_path.is_some());
    assert!(w.plan.records.instance_profile_arn.is_some());
    assert!(w.plan.records.network.is_some());
    assert!(w.plan.records.asg_logical_id.is_some());
    assert_eq!(w.plan.identity, Some(identity_a()));
}

#[test]
fn populated_ledger_issues_no_creation() {
    let mut plan = three_node_plan();
    plan.records = populated_records();
    plan.identity = Some(identity_a());
    let mut w = Workflow::new(plan, String::from("plans/demo.yaml")).unwrap();

    let mut actions = Vec::new();
    actions.push(w.step(Event::Start));
    actions.push(w.step(Event::GotIdentity(identity_a())));
    actions.push(w.step(Event::Completed));
    actions.push(w.step(Event::Completed));
    assert!(matches!(actions[0], Action::FetchIdentity));
    assert!(matches!(actions[1], Action::PersistLedger { remote: false }));
    // the artifact upload is an idempotent overwrite and still happens
    assert!(matches!(actions[2], Action::PutObject { .. }));
    assert!(matches!(actions[3], Action::Finish { emit_teardown: false }));
    for a in &actions {
        assert!(!is_creation(a));
    }
}

#[test]
fn identity_mismatch_fails_before_any_creation() {
    let mut plan = three_node_plan();
    plan.identity = Some(identity_a());
    let mut w = Workflow::new(plan, String::from("plans/demo.yaml")).unwrap();

    let a = w.step(Event::Start);
    assert!(!is_creation(&a));
    let a = w.step(Event::GotIdentity(identity_b()));
    assert!(matches!(a, Action::Fail { error: WorkflowError::IdentityMismatch }));
    // the failure absorbs whatever comes next; nothing is ever created
    let a = w.step(Event::Completed);
    assert!(matches!(a, Action::Fail { error: WorkflowError::IdentityMismatch }));
    // the recorded identity is untouched
    assert_eq!(w.plan.identity, Some(identity_a()));
}

#[test]
fn absent_identity_is_recorded() {
    let mut w = Workflow::new(three_node_plan(), String::from("plans/demo.yaml")).unwrap();
    w.step(Event::Start);
    let a = w.step(Event::GotIdentity(identity_b()));
    assert!(matches!(a, Action::PersistLedger { remote: false }));
    assert_eq!(w.plan.identity, Some(identity_b()));
}

#[test]
fn cancellation_is_deferred_past_the_poll_and_listing() {
    let mut w = Workflow::new(three_node_plan(), String::from("plans/demo.yaml")).unwrap();
    w.step(Event::Start);
    w.step(Event::GotIdentity(identity_a()));
    w.step(Event::Completed); // bucket create
    w.step(Event::Completed); // bucket persist
    w.step(Event::Completed); // artifact upload
    w.step(Event::Completed); // key pair create
    w.step(Event::Completed); // key upload
    w.step(Event::Completed); // key persist
    w.step(Event::Completed); // role create
    w.step(Event::Completed); // role poll
    w.step(Event::StackReady(vec![build_param("InstanceProfileArn", "arn:p")]));
    w.step(Event::Completed); // vpc create
    w.step(Event::Completed); // vpc poll
    w.step(Event::StackReady(vec![
        build_param("VpcId", "vpc-1"),
        build_param("SecurityGroupId", "sg-1"),
        build_param("PublicSubnetIds", "s-1,s-2,s-3"),
    ]));
    w.step(Event::Completed); // asg create
    let a = w.step(Event::Completed); // asg poll issued
    assert!(matches!(a, Action::PollStack { .. }));

    // the interrupt arrives while the autoscaling-group poll is in flight
    w.set_cancelled();

    // the poll result is still processed normally
    let a = w.step(Event::StackReady(vec![build_param("AsgLogicalId", "demo-asg-group")]));
    assert!(matches!(a, Action::PersistLedger { remote: true }));
    // the listing step still runs to its best-effort end
    let a = w.step(Event::Completed);
    assert!(matches!(a, Action::ListGroup { .. }));
    let a = w.step(Event::Listed(2));
    assert!(matches!(a, Action::PersistLedger { remote: true }));
    // only now is the teardown hint emitted, and the run still succeeds
    let a = w.step(Event::Completed);
    assert!(matches!(a, Action::Finish { emit_teardown: true }));
}

#[test]
fn poll_timeout_is_fatal() {
    let mut w = Workflow::new(three_node_plan(), String::from("plans/demo.yaml")).unwrap();
    w.step(Event::Start);
    w.step(Event::GotIdentity(identity_a()));
    w.step(Event::Completed); // bucket create
    w.step(Event::Completed); // bucket persist
    w.step(Event::Completed); // artifact upload
    w.step(Event::Completed); // key pair create
    w.step(Event::Completed); // key upload
    w.step(Event::Completed); // key persist
    w.step(Event::Completed); // role create
    w.step(Event::Completed); // role poll issued
    let a = w.step(Event::StackTimedOut);
    assert!(matches!(a, Action::Fail { error: WorkflowError::PollTimeout }));
}

#[test]
fn missing_stack_output_is_partial_progress() {
    let mut w = Workflow::new(three_node_plan(), String::from("plans/demo.yaml")).unwrap();
    w.step(Event::Start);
    w.step(Event::GotIdentity(identity_a()));
    w.step(Event::Completed); // bucket create
    w.step(Event::Completed); // bucket persist
    w.step(Event::Completed); // artifact upload
    w.step(Event::Completed); // key pair create
    w.step(Event::Completed); // key upload
    w.step(Event::Completed); // key persist
    w.step(Event::Completed); // role create
    w.step(Event::Completed); // role poll issued
    let a = w.step(Event::StackReady(vec![build_param("Unrelated", "x")]));
    assert!(matches!(a, Action::Fail { error: WorkflowError::PartialProgress }));
}

#[test]
fn skip_bin_upload_and_spot_pricing() {
    let mut plan = three_node_plan();
    plan.install_artifacts.blizzard_bin = None;
    plan.machine.use_spot_instance = true;
    plan.machine.instance_types = Vec::new();
    let mut w = Workflow::new(plan, String::from("plans/demo.yaml")).unwrap();
    w.step(Event::Start);
    w.step(Event::GotIdentity(identity_a()));
    w.step(Event::Completed); // returns the bucket creation
    w.step(Event::Completed); // returns the bucket persist
    // with no local artifact, the key-pair step follows directly
    let a = w.step(Event::Completed);
    assert!(matches!(a, Action::CreateKeyPair { .. }));
    w.step(Event::Completed); // returns the key upload
    w.step(Event::Completed); // returns the key persist
    w.step(Event::Completed); // returns the role stack creation
    w.step(Event::Completed); // returns the role poll
    w.step(Event::StackReady(vec![build_param("InstanceProfileArn", "arn:p")]));
    w.step(Event::Completed); // returns the network stack creation
    w.step(Event::Completed); // returns the network poll
    w.step(Event::StackReady(vec![
        build_param("VpcId", "vpc-1"),
        build_param("SecurityGroupId", "sg-1"),
        build_param("PublicSubnetIds", "s-1"),
    ]));
    let a = w.step(Event::Completed); // returns the autoscaling-group creation
    match a {
        Action::CreateStack { ref parameters, .. } => {
            assert_eq!(parameters.len(), 13);
            assert_param(&parameters[8], "BlizzardDownloadSource", "github");
            assert_param(&parameters[9], "AsgSpotInstance", "true");
            assert_param(&parameters[10], "OnDemandPercentageAboveBaseCapacity", "0");
        },
        _ => panic!("expected autoscaling-group stack creation"),
    }
}

#[test]
fn config_errors_are_rejected_up_front() {
    let mut plan = three_node_plan();
    plan.id = String::new();
    assert!(matches!(
        Workflow::new(plan, String::from("plans/demo.yaml")),
        Err(WorkflowError::ConfigError)
    ));

    let plan = three_node_plan();
    assert!(matches!(
        Workflow::new(plan, String::from("plans/")),
        Err(WorkflowError::ConfigError)
    ));

    let mut plan = three_node_plan();
    plan.machine.nodes = 0;
    assert!(matches!(validate(&plan), Err(WorkflowError::ConfigError)));
}

#[test]
fn lookup_output_takes_the_last_match() {
    let outs = vec![
        build_param("K", "first"),
        build_param("Other", "x"),
        build_param("K", "second"),
    ];
    assert_eq!(lookup_output(&outs, "K"), Some(String::from("second")));
    assert_eq!(lookup_output(&outs, "Missing"), None);
}

#[test]
fn asg_wait_seconds_formula_and_cap() {
    assert_eq!(asg_wait_secs(1), 760);
    assert_eq!(asg_wait_secs(3), 880);
    assert_eq!(asg_wait_secs(38), 2980);
    assert_eq!(asg_wait_secs(39), 3000);
    assert_eq!(asg_wait_secs(100000), 3000);
}
