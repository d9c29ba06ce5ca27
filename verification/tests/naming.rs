use blizzardup_aws::naming::build_param;
use blizzardup_aws::naming::ec2_key_name;
use blizzardup_aws::naming::get_ec2_key_path;
use blizzardup_aws::naming::StackName;
use blizzardup_aws::naming::StorageNamespace;

#[test]
fn stack_name_exact_values() {
    assert_eq!(
        StackName::Ec2InstanceRole(String::from("demo")).encode(),
        "demo-ec2-instance-role"
    );
    assert_eq!(StackName::Vpc(String::from("demo")).encode(), "demo-vpc");
    assert_eq!(
        StackName::AsgBlizzards(String::from("demo")).encode(),
        "demo-asg-blizzards"
    );
}

#[test]
fn stack_name_deterministic_and_distinct() {
    let a = StackName::Vpc(String::from("plan-7")).encode();
    let b = StackName::Vpc(String::from("plan-7")).encode();
    assert_eq!(a, b);
    let role = StackName::Ec2InstanceRole(String::from("plan-7")).encode();
    let asg = StackName::AsgBlizzards(String::from("plan-7")).encode();
    assert_ne!(a, role);
    assert_ne!(a, asg);
    assert_ne!(role, asg);
}

#[test]
fn stack_name_distinct_across_plans() {
    let a = StackName::Vpc(String::from("one")).encode();
    let b = StackName::Vpc(String::from("two")).encode();
    assert_ne!(a, b);
}

#[test]
fn storage_key_exact_values() {
    assert_eq!(
        StorageNamespace::BlizzardBin(String::from("demo")).encode(),
        "demo/install/blizzard"
    );
    assert_eq!(
        StorageNamespace::ConfigFile(String::from("demo")).encode(),
        "demo/blizzardup-aws.config.yaml"
    );
    assert_eq!(
        StorageNamespace::Ec2AccessKey(String::from("demo")).encode(),
        "demo/ec2-access.key"
    );
}

#[test]
fn key_name_exact_value() {
    assert_eq!(ec2_key_name("demo"), "demo-ec2-key");
}

#[test]
fn build_param_wraps_key_and_value() {
    let p = build_param("Id", "demo");
    assert_eq!(p.key, "Id");
    assert_eq!(p.value, "demo");
}

#[test]
fn key_path_in_nested_directory() {
    assert_eq!(
        get_ec2_key_path("plans/demo/spec.yaml"),
        "plans/demo/spec-ec2-access.key"
    );
}

#[test]
fn key_path_bare_file() {
    assert_eq!(get_ec2_key_path("spec.yaml"), "spec-ec2-access.key");
}

#[test]
fn key_path_without_extension() {
    assert_eq!(get_ec2_key_path("plans/spec"), "plans/spec-ec2-access.key");
}

#[test]
fn key_path_hidden_file_keeps_name() {
    assert_eq!(get_ec2_key_path(".spec"), ".spec-ec2-access.key");
}

#[test]
fn key_path_multiple_dots() {
    assert_eq!(
        get_ec2_key_path("d/a.b.c.yaml"),
        "d/a.b.c-ec2-access.key"
    );
}
