//! The plan: the idempotency ledger that is the single source of truth for
//! what has already been created, together with the pure functions that read
//! stack outputs into it and build the template parameters of each step.

use vstd::prelude::*;
use vstd::string::*;

use crate::errors::WorkflowError;
use crate::identity::Identity;
use crate::identity::IdentityView;
use crate::naming::spec_ec2_key_name;
use crate::naming::Param;
use crate::naming::ParamView;
use crate::naming::build_param;
use crate::naming::ec2_key_name;
use crate::strutil::join_commas;
use crate::strutil::spec_decimal;
use crate::strutil::spec_join_commas;
use crate::strutil::spec_split_commas;
use crate::strutil::split_commas;
use crate::strutil::u64_to_string;

verus! {

/// The machine configuration of a plan.
pub struct Machine {
    pub nodes: usize,
    pub arch: String,
    pub instance_types: Vec<String>,
    pub use_spot_instance: bool,
}

/// The mathematical value of a [`Machine`].
#[verifier::ext_equal]
pub struct MachineView {
    pub nodes: int,
    pub arch: Seq<char>,
    pub instance_types: Seq<Seq<char>>,
    pub use_spot_instance: bool,
}

impl View for Machine {
    type V = MachineView;

    open spec fn view(&self) -> MachineView {
        MachineView {
            nodes: self.nodes as int,
            arch: self.arch@,
            instance_types: self.instance_types.deep_view(),
            use_spot_instance: self.use_spot_instance,
        }
    }
}

/// The install-artifact references of a plan.
pub struct InstallArtifacts {
    pub blizzard_bin: Option<String>,
}

impl View for InstallArtifacts {
    type V = Option<Seq<char>>;

    open spec fn view(&self) -> Option<Seq<char>> {
        self.blizzard_bin.deep_view()
    }
}

/// The recorded outputs of the network step.
pub struct NetworkRecord {
    pub vpc_id: String,
    pub security_group_id: String,
    pub public_subnet_ids: Vec<String>,
}

/// The mathematical value of a [`NetworkRecord`].
#[verifier::ext_equal]
pub struct NetworkRecordView {
    pub vpc_id: Seq<char>,
    pub security_group_id: Seq<char>,
    pub public_subnet_ids: Seq<Seq<char>>,
}

impl View for NetworkRecord {
    type V = NetworkRecordView;

    open spec fn view(&self) -> NetworkRecordView {
        NetworkRecordView {
            vpc_id: self.vpc_id@,
            security_group_id: self.security_group_id@,
            public_subnet_ids: self.public_subnet_ids.deep_view(),
        }
    }
}

impl DeepView for NetworkRecord {
    type V = NetworkRecordView;

    open spec fn deep_view(&self) -> NetworkRecordView {
        self.view()
    }
}

/// The resource record map of the ledger: one optional record per resource
/// kind, each set exactly when that kind's step has completed.
pub struct Records {
    pub bucket: Option<String>,
    pub ec2_key_path: Option<String>,
    pub instance_profile_arn: Option<String>,
    pub network: Option<NetworkRecord>,
    pub asg_logical_id: Option<String>,
}

/// The mathematical value of a [`Records`].
#[verifier::ext_equal]
pub struct RecordsView {
    pub bucket: Option<Seq<char>>,
    pub ec2_key_path: Option<Seq<char>>,
    pub instance_profile_arn: Option<Seq<char>>,
    pub network: Option<NetworkRecordView>,
    pub asg_logical_id: Option<Seq<char>>,
}

impl View for Records {
    type V = RecordsView;

    open spec fn view(&self) -> RecordsView {
        RecordsView {
            bucket: self.bucket.deep_view(),
            ec2_key_path: self.ec2_key_path.deep_view(),
            instance_profile_arn: self.instance_profile_arn.deep_view(),
            network: self.network.deep_view(),
            asg_logical_id: self.asg_logical_id.deep_view(),
        }
    }
}

/// The plan: identifier, region, configuration, the recorded caller identity,
/// and the resource record map.
pub struct Plan {
    pub id: String,
    pub region: String,
    pub s3_bucket: String,
    pub machine: Machine,
    pub install_artifacts: InstallArtifacts,
    pub identity: Option<Identity>,
    pub records: Records,
}

/// The mathematical value of a [`Plan`].
#[verifier::ext_equal]
pub struct PlanView {
    pub id: Seq<char>,
    pub region: Seq<char>,
    pub s3_bucket: Seq<char>,
    pub machine: MachineView,
    pub blizzard_bin: Option<Seq<char>>,
    pub identity: Option<IdentityView>,
    pub records: RecordsView,
}

impl View for Plan {
    type V = PlanView;

    open spec fn view(&self) -> PlanView {
        PlanView {
            id: self.id@,
            region: self.region@,
            s3_bucket: self.s3_bucket@,
            machine: self.machine@,
            blizzard_bin: self.install_artifacts@,
            identity: self.identity.deep_view(),
            records: self.records@,
        }
    }
}

/// The required fields of a plan are present and the node count is usable.
pub open spec fn plan_valid(p: PlanView) -> bool {
    &&& p.id.len() > 0
    &&& p.region.len() > 0
    &&& p.s3_bucket.len() > 0
    &&& p.machine.arch.len() > 0
    &&& 1 <= p.machine.nodes
    &&& p.machine.nodes + 1 <= usize::MAX
}

/// Rejects a plan with malformed or missing required fields.
pub fn validate(plan: &Plan) -> (r: Result<(), WorkflowError>)
    ensures
        r is Ok <==> plan_valid(plan@),
        r is Err ==> r == Err::<(), WorkflowError>(WorkflowError::ConfigError),
{
    if plan.id.as_str().is_empty() || plan.region.as_str().is_empty()
        || plan.s3_bucket.as_str().is_empty() || plan.machine.arch.as_str().is_empty()
        || plan.machine.nodes < 1 || plan.machine.nodes > usize::MAX - 1 {
        Err(WorkflowError::ConfigError)
    } else {
        Ok(())
    }
}

/// Every resource record of the ledger is populated.
pub open spec fn fully_populated(r: RecordsView) -> bool {
    &&& r.bucket is Some
    &&& r.ec2_key_path is Some
    &&& r.instance_profile_arn is Some
    &&& r.network is Some
    &&& r.asg_logical_id is Some
}

/// A record field only ever transitions from absent to present, and is never
/// changed once present.
pub open spec fn option_le<T>(a: Option<T>, b: Option<T>) -> bool {
    a is Some ==> b == a
}

/// The resource record map only grows: every populated field of `a` is
/// populated in `b` with the same value.
pub open spec fn records_le(a: RecordsView, b: RecordsView) -> bool {
    &&& option_le(a.bucket, b.bucket)
    &&& option_le(a.ec2_key_path, b.ec2_key_path)
    &&& option_le(a.instance_profile_arn, b.instance_profile_arn)
    &&& option_le(a.network, b.network)
    &&& option_le(a.asg_logical_id, b.asg_logical_id)
}

/// The value of the last output whose key is `key`, if any.
pub open spec fn spec_lookup_output(outs: Seq<ParamView>, key: Seq<char>) -> Option<Seq<char>>
    decreases outs.len(),
{
    if outs.len() == 0 {
        None
    } else if outs.last().key == key {
        Some(outs.last().value)
    } else {
        spec_lookup_output(outs.drop_last(), key)
    }
}

/// Scans stack outputs for `key`; the last matching output wins.
pub fn lookup_output(outs: &Vec<Param>, key: &str) -> (r: Option<String>)
    ensures
        r.deep_view() == spec_lookup_output(outs.deep_view(), key@),
{
    let ghost s = outs.deep_view();
    let key_string = String::from_str(key);
    let mut r: Option<String> = None;
    let mut i: usize = 0;
    proof {
        assert(s.take(0) =~= Seq::<ParamView>::empty());
    }
    while i < outs.len()
        invariant
            i <= outs@.len(),
            s == outs.deep_view(),
            s.len() == outs@.len(),
            key_string@ == key@,
            r.deep_view() == spec_lookup_output(s.take(i as int), key@),
        decreases outs@.len() - i,
    {
        proof {
            assert(s.take(i as int + 1).last() == s[i as int]);
            assert(s.take(i as int + 1).drop_last() =~= s.take(i as int));
            assert(s[i as int] == outs@[i as int]@);
        }
        if outs[i].key == key_string {
            r = Some(outs[i].value.clone());
        }
        i = i + 1;
    }
    proof {
        assert(s.take(s.len() as int) =~= s);
    }
    r
}

/// The network record described by a set of stack outputs, when the three
/// expected keys are all present.
pub open spec fn spec_network_of_outputs(outs: Seq<ParamView>) -> Option<NetworkRecordView> {
    let v = spec_lookup_output(outs, "VpcId"@);
    let g = spec_lookup_output(outs, "SecurityGroupId"@);
    let p = spec_lookup_output(outs, "PublicSubnetIds"@);
    if v is Some && g is Some && p is Some {
        Some(
            NetworkRecordView {
                vpc_id: v->0,
                security_group_id: g->0,
                public_subnet_ids: spec_split_commas(p->0),
            },
        )
    } else {
        None
    }
}

/// Reads the network step's outputs; a missing expected output after an
/// apparently successful step is fatal partial progress.
pub fn extract_network(outs: &Vec<Param>) -> (r: Result<NetworkRecord, WorkflowError>)
    ensures
        r is Ok <==> spec_network_of_outputs(outs.deep_view()) is Some,
        r matches Ok(nr) ==> Some(nr@) == spec_network_of_outputs(outs.deep_view()),
        r is Err ==> r == Err::<NetworkRecord, WorkflowError>(WorkflowError::PartialProgress),
{
    let v = lookup_output(outs, "VpcId");
    let g = lookup_output(outs, "SecurityGroupId");
    let p = lookup_output(outs, "PublicSubnetIds");
    match (v, g, p) {
        (Some(vpc_id), Some(security_group_id), Some(subnets)) => {
            let public_subnet_ids = split_commas(subnets.as_str());
            Ok(NetworkRecord { vpc_id, security_group_id, public_subnet_ids })
        },
        _ => Err(WorkflowError::PartialProgress),
    }
}

/// Reads one required output value under `key`; absence is fatal partial
/// progress.
pub fn extract_required_output(outs: &Vec<Param>, key: &str) -> (r: Result<String, WorkflowError>)
    ensures
        r is Ok <==> spec_lookup_output(outs.deep_view(), key@) is Some,
        r matches Ok(v) ==> Some(v@) == spec_lookup_output(outs.deep_view(), key@),
        r is Err ==> r == Err::<String, WorkflowError>(WorkflowError::PartialProgress),
{
    match lookup_output(outs, key) {
        Some(v) => Ok(v),
        None => Err(WorkflowError::PartialProgress),
    }
}

/// The parameters of the instance-role stack.
pub open spec fn spec_role_params(p: PlanView) -> Seq<ParamView> {
    seq![
        ParamView { key: "Id"@, value: p.id },
        ParamView { key: "S3BucketName"@, value: p.s3_bucket },
    ]
}

/// Builds the instance-role stack parameters.
pub fn build_role_params(plan: &Plan) -> (r: Vec<Param>)
    ensures
        r.deep_view() == spec_role_params(plan@),
{
    let mut r: Vec<Param> = Vec::new();
    r.push(build_param("Id", plan.id.as_str()));
    r.push(build_param("S3BucketName", plan.s3_bucket.as_str()));
    proof {
        assert(r.deep_view() =~= spec_role_params(plan@));
    }
    r
}

/// The parameters of the network stack: the plan identifier and the fixed
/// address layout.
pub open spec fn spec_vpc_params(p: PlanView) -> Seq<ParamView> {
    seq![
        ParamView { key: "Id"@, value: p.id },
        ParamView { key: "VpcCidr"@, value: "10.0.0.0/16"@ },
        ParamView { key: "PublicSubnetCidr1"@, value: "10.0.64.0/19"@ },
        ParamView { key: "PublicSubnetCidr2"@, value: "10.0.128.0/19"@ },
        ParamView { key: "PublicSubnetCidr3"@, value: "10.0.192.0/19"@ },
        ParamView { key: "IngressIpv4Range"@, value: "0.0.0.0/0"@ },
    ]
}

/// Builds the network stack parameters.
pub fn build_vpc_params(plan: &Plan) -> (r: Vec<Param>)
    ensures
        r.deep_view() == spec_vpc_params(plan@),
{
    let mut r: Vec<Param> = Vec::new();
    r.push(build_param("Id", plan.id.as_str()));
    r.push(build_param("VpcCidr", "10.0.0.0/16"));
    r.push(build_param("PublicSubnetCidr1", "10.0.64.0/19"));
    r.push(build_param("PublicSubnetCidr2", "10.0.128.0/19"));
    r.push(build_param("PublicSubnetCidr3", "10.0.192.0/19"));
    r.push(build_param("IngressIpv4Range", "0.0.0.0/0"));
    proof {
        assert(r.deep_view() =~= spec_vpc_params(plan@));
    }
    r
}

/// The parameters of the autoscaling-group stack.  They consume the outputs
/// of the earlier steps: the recorded instance profile and network record,
/// and the derived key-pair name.
pub open spec fn spec_asg_params(p: PlanView) -> Seq<ParamView>
    recommends
        p.records.instance_profile_arn is Some,
        p.records.network is Some,
{
    let base = seq![
        ParamView { key: "Id"@, value: p.id },
        ParamView { key: "NodeKind"@, value: "worker"@ },
        ParamView { key: "S3BucketName"@, value: p.s3_bucket },
        ParamView { key: "Ec2KeyPairName"@, value: spec_ec2_key_name(p.id) },
        ParamView { key: "InstanceProfileArn"@, value: p.records.instance_profile_arn->0 },
        ParamView { key: "SecurityGroupId"@, value: p.records.network->0.security_group_id },
        ParamView {
            key: "PublicSubnetIds"@,
            value: spec_join_commas(p.records.network->0.public_subnet_ids),
        },
        ParamView { key: "Arch"@, value: p.machine.arch },
    ];
    let with_types = if p.machine.instance_types.len() > 0 {
        base + seq![
            ParamView {
                key: "InstanceTypes"@,
                value: spec_join_commas(p.machine.instance_types),
            },
            ParamView {
                key: "InstanceTypesCount"@,
                value: spec_decimal(p.machine.instance_types.len() as int),
            },
        ]
    } else {
        base
    };
    with_types + seq![
        ParamView {
            key: "BlizzardDownloadSource"@,
            value: if p.blizzard_bin is Some {
                "s3"@
            } else {
                "github"@
            },
        },
        ParamView {
            key: "AsgSpotInstance"@,
            value: if p.machine.use_spot_instance {
                "true"@
            } else {
                "false"@
            },
        },
        ParamView {
            key: "OnDemandPercentageAboveBaseCapacity"@,
            value: if p.machine.use_spot_instance {
                "0"@
            } else {
                "100"@
            },
        },
        ParamView { key: "AsgDesiredCapacity"@, value: spec_decimal(p.machine.nodes) },
        ParamView { key: "AsgMaxSize"@, value: spec_decimal(p.machine.nodes + 1) },
    ]
}

/// Builds the autoscaling-group stack parameters.
pub fn build_asg_params(plan: &Plan) -> (r: Vec<Param>)
    requires
        plan_valid(plan@),
        plan@.records.instance_profile_arn is Some,
        plan@.records.network is Some,
    ensures
        r.deep_view() == spec_asg_params(plan@),
{
    let mut r: Vec<Param> = Vec::new();
    r.push(build_param("Id", plan.id.as_str()));
    r.push(build_param("NodeKind", "worker"));
    r.push(build_param("S3BucketName", plan.s3_bucket.as_str()));
    let key_name = ec2_key_name(plan.id.as_str());
    r.push(build_param("Ec2KeyPairName", key_name.as_str()));
    let arn = plan.records.instance_profile_arn.as_ref().unwrap();
    r.push(build_param("InstanceProfileArn", arn.as_str()));
    let network = plan.records.network.as_ref().unwrap();
    r.push(build_param("SecurityGroupId", network.security_group_id.as_str()));
    let subnet_ids = join_commas(&network.public_subnet_ids);
    r.push(build_param("PublicSubnetIds", subnet_ids.as_str()));
    r.push(build_param("Arch", plan.machine.arch.as_str()));
    if plan.machine.instance_types.len() > 0 {
        let types = join_commas(&plan.machine.instance_types);
        r.push(build_param("InstanceTypes", types.as_str()));
        let count = u64_to_string(plan.machine.instance_types.len() as u64);
        r.push(build_param("InstanceTypesCount", count.as_str()));
    }
    if plan.install_artifacts.blizzard_bin.is_some() {
        r.push(build_param("BlizzardDownloadSource", "s3"));
    } else {
        r.push(build_param("BlizzardDownloadSource", "github"));
    }
    if plan.machine.use_spot_instance {
        r.push(build_param("AsgSpotInstance", "true"));
        r.push(build_param("OnDemandPercentageAboveBaseCapacity", "0"));
    } else {
        r.push(build_param("AsgSpotInstance", "false"));
        r.push(build_param("OnDemandPercentageAboveBaseCapacity", "100"));
    }
    let desired = u64_to_string(plan.machine.nodes as u64);
    r.push(build_param("AsgDesiredCapacity", desired.as_str()));
    let max_size = u64_to_string(plan.machine.nodes as u64 + 1);
    r.push(build_param("AsgMaxSize", max_size.as_str()));
    proof {
        assert(r.deep_view() =~= spec_asg_params(plan@));
    }
    r
}

/// The poll timeout for the autoscaling-group stack: a base duration plus a
/// per-node allowance, capped at an absolute maximum.
pub open spec fn spec_asg_wait_secs(nodes: int) -> int {
    if 700 + 60 * nodes > 3000 {
        3000
    } else {
        700 + 60 * nodes
    }
}

/// Computes the autoscaling-group poll timeout for a node count.
pub fn asg_wait_secs(nodes: usize) -> (r: u64)
    ensures
        r as int == spec_asg_wait_secs(nodes as int),
{
    if nodes >= 39 {
        3000
    } else {
        700 + 60 * (nodes as u64)
    }
}

} // verus!
