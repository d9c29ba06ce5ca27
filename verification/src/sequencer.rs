//! The step sequencer: the ordered, idempotent provisioning state machine.
//!
//! The sequencer decides, from the ledger alone, which resource to create
//! next; every outside effect is requested as an [`Action`] and its result
//! handed back as an [`Event`].  A step whose record is already populated is
//! skipped entirely, the ledger is persisted after every record mutation, and
//! the cancellation flag is observed only at the single safe point after the
//! final step's output is persisted and the listing has produced its
//! best-effort result.
//!
//! The executable [`Workflow::step`] refines the specification transition
//! function [`model_step`]; the workflow's laws (idempotent short-circuit,
//! the identity guard, record monotonicity, deferred cancellation) are proved
//! of the model and therefore hold of every execution.

use vstd::prelude::*;
use vstd::string::*;

use crate::errors::WorkflowError;
use crate::identity::Identity;
use crate::identity::IdentityView;
use crate::identity::check_identity;
use crate::naming::Param;
use crate::naming::ParamView;
use crate::naming::StackName;
use crate::naming::StackNameView;
use crate::naming::StorageNamespace;
use crate::naming::StorageNamespaceView;
use crate::naming::ec2_key_name;
use crate::naming::get_ec2_key_path;
use crate::naming::spec_ec2_key_name;
use crate::naming::spec_ec2_key_path;
use crate::naming::spec_encode_stack_name;
use crate::naming::spec_encode_storage_key;
use crate::naming::spec_file_name;
use crate::plan::Plan;
use crate::plan::PlanView;
use crate::plan::RecordsView;
use crate::plan::asg_wait_secs;
use crate::plan::build_asg_params;
use crate::plan::build_role_params;
use crate::plan::build_vpc_params;
use crate::plan::extract_network;
use crate::plan::extract_required_output;
use crate::plan::plan_valid;
use crate::plan::records_le;
use crate::plan::spec_asg_params;
use crate::plan::spec_asg_wait_secs;
use crate::plan::spec_lookup_output;
use crate::plan::spec_network_of_outputs;
use crate::plan::spec_role_params;
use crate::plan::spec_vpc_params;
use crate::plan::validate;
use crate::poller::StackStatus;

verus! {

/// Which bundled template a stack is created from.
#[derive(Clone, Copy, Debug, PartialEq, Eq, Structural)]
pub enum TemplateKind {
    Ec2InstanceRole,
    Vpc,
    AsgBlizzards,
}

/// Where the workflow stands: which outside result it is waiting for.
#[derive(Clone, Copy, Debug, PartialEq, Eq, Structural)]
pub enum Phase {
    Idle,
    AwaitIdentity,
    AwaitInitialPersist,
    AwaitBucket,
    AwaitBucketPersist,
    AwaitArtifactUpload,
    AwaitKeyPair,
    AwaitKeyUpload,
    AwaitKeyPersist,
    AwaitRoleCreate,
    AwaitRolePoll,
    AwaitRolePersist,
    AwaitVpcCreate,
    AwaitVpcPoll,
    AwaitVpcPersist,
    AwaitAsgCreate,
    AwaitAsgPoll,
    AwaitAsgPersist,
    AwaitListing,
    AwaitFinalPersist,
    Done,
    Failed(WorkflowError),
}

/// The result of an outside effect, handed back to the sequencer.
pub enum Event {
    /// Begin a run.
    Start,
    /// The identity service answered.
    GotIdentity(Identity),
    /// The requested effect finished (a creation call returned, an object was
    /// stored, the ledger was persisted).
    Completed,
    /// A stack poll reached its target status, with the stack's outputs.
    StackReady(Vec<Param>),
    /// A stack poll spent its budget without reaching the target status.
    StackTimedOut,
    /// The listing step finished, best effort, with this many members seen.
    Listed(usize),
}

/// The mathematical value of an [`Event`].
#[verifier::ext_equal]
pub enum EventView {
    Start,
    GotIdentity(IdentityView),
    Completed,
    StackReady(Seq<ParamView>),
    StackTimedOut,
    Listed(int),
}

impl View for Event {
    type V = EventView;

    open spec fn view(&self) -> EventView {
        match self {
            Event::Start => EventView::Start,
            Event::GotIdentity(identity) => EventView::GotIdentity(identity@),
            Event::Completed => EventView::Completed,
            Event::StackReady(outs) => EventView::StackReady(outs.deep_view()),
            Event::StackTimedOut => EventView::StackTimedOut,
            Event::Listed(n) => EventView::Listed(*n as int),
        }
    }
}

/// An outside effect the sequencer asks its driver to perform.
pub enum Action {
    /// Query the identity service and answer with `GotIdentity`.
    FetchIdentity,
    /// Persist the ledger locally and, when `remote`, mirror it to the
    /// bucket under the plan's config key; answer with `Completed`.
    PersistLedger { remote: bool },
    /// Create the object-storage bucket; answer with `Completed`.
    CreateBucket { bucket: String },
    /// Store a local file under a key in the bucket; answer with `Completed`.
    PutObject { local_path: String, bucket: String, key: String },
    /// Create the SSH key pair, writing owner-only private key material to
    /// `key_path`; answer with `Completed`.
    CreateKeyPair { key_name: String, key_path: String },
    /// Create a stack from a bundled template; a failed creation deletes that
    /// stack (`on_failure_delete`).  Answer with `Completed`.
    CreateStack {
        name: String,
        template: TemplateKind,
        named_iam: bool,
        on_failure_delete: bool,
        parameters: Vec<Param>,
    },
    /// Poll the stack until `target`, waiting `settle_secs` first, then
    /// querying every `interval_secs` within `timeout_secs`; answer with
    /// `StackReady` or `StackTimedOut`.
    PollStack {
        name: String,
        target: StackStatus,
        timeout_secs: u64,
        interval_secs: u64,
        settle_secs: u64,
    },
    /// List group members until `desired` are seen, retrying up to
    /// `max_attempts` with `delay_secs` between attempts; answer with
    /// `Listed`, best effort.
    ListGroup { group: String, desired: usize, max_attempts: u64, delay_secs: u64 },
    /// The run succeeded; when `emit_teardown`, print the teardown command
    /// for everything provisioned, then still exit successfully.
    Finish { emit_teardown: bool },
    /// The run failed fatally with `error`; already-persisted state stays
    /// valid for a later retry.
    Fail { error: WorkflowError },
}

/// The mathematical value of an [`Action`].
#[verifier::ext_equal]
pub enum ActionView {
    FetchIdentity,
    PersistLedger { remote: bool },
    CreateBucket { bucket: Seq<char> },
    PutObject { local_path: Seq<char>, bucket: Seq<char>, key: Seq<char> },
    CreateKeyPair { key_name: Seq<char>, key_path: Seq<char> },
    CreateStack {
        name: Seq<char>,
        template: TemplateKind,
        named_iam: bool,
        on_failure_delete: bool,
        parameters: Seq<ParamView>,
    },
    PollStack {
        name: Seq<char>,
        target: StackStatus,
        timeout_secs: int,
        interval_secs: int,
        settle_secs: int,
    },
    ListGroup { group: Seq<char>, desired: int, max_attempts: int, delay_secs: int },
    Finish { emit_teardown: bool },
    Fail { error: WorkflowError },
}

impl View for Action {
    type V = ActionView;

    open spec fn view(&self) -> ActionView {
        match self {
            Action::FetchIdentity => ActionView::FetchIdentity,
            Action::PersistLedger { remote } => ActionView::PersistLedger { remote: *remote },
            Action::CreateBucket { bucket } => ActionView::CreateBucket { bucket: bucket@ },
            Action::PutObject { local_path, bucket, key } => ActionView::PutObject {
                local_path: local_path@,
                bucket: bucket@,
                key: key@,
            },
            Action::CreateKeyPair { key_name, key_path } => ActionView::CreateKeyPair {
                key_name: key_name@,
                key_path: key_path@,
            },
            Action::CreateStack { name, template, named_iam, on_failure_delete, parameters } => {
                ActionView::CreateStack {
                    name: name@,
                    template: *template,
                    named_iam: *named_iam,
                    on_failure_delete: *on_failure_delete,
                    parameters: parameters.deep_view(),
                }
            },
            Action::PollStack { name, target, timeout_secs, interval_secs, settle_secs } => {
                ActionView::PollStack {
                    name: name@,
                    target: *target,
                    timeout_secs: *timeout_secs as int,
                    interval_secs: *interval_secs as int,
                    settle_secs: *settle_secs as int,
                }
            },
            Action::ListGroup { group, desired, max_attempts, delay_secs } => {
                ActionView::ListGroup {
                    group: group@,
                    desired: *desired as int,
                    max_attempts: *max_attempts as int,
                    delay_secs: *delay_secs as int,
                }
            },
            Action::Finish { emit_teardown } => ActionView::Finish {
                emit_teardown: *emit_teardown,
            },
            Action::Fail { error } => ActionView::Fail { error: *error },
        }
    }
}

/// The mathematical state of a workflow.
#[verifier::ext_equal]
pub struct WorkflowView {
    pub plan: PlanView,
    pub spec_file_path: Seq<char>,
    pub phase: Phase,
    pub cancelled: bool,
}

/// An action that creates an external resource.  Storing an object is an
/// idempotent overwrite, not a creation.
pub open spec fn is_creation(a: ActionView) -> bool {
    ||| a is CreateBucket
    ||| a is CreateKeyPair
    ||| a is CreateStack
}

/// The record facts each phase carries: a record is still unset while its
/// own step is in flight, and the outputs consumed by later steps are
/// present by the time those steps build their parameters.
pub open spec fn phase_records_ok(s: WorkflowView) -> bool {
    match s.phase {
        Phase::AwaitBucket => s.plan.records.bucket is None,
        Phase::AwaitKeyPair => s.plan.records.ec2_key_path is None,
        Phase::AwaitKeyUpload => s.plan.records.ec2_key_path is None,
        Phase::AwaitRoleCreate => s.plan.records.instance_profile_arn is None,
        Phase::AwaitRolePoll => s.plan.records.instance_profile_arn is None,
        Phase::AwaitRolePersist => s.plan.records.instance_profile_arn is Some,
        Phase::AwaitVpcCreate => s.plan.records.instance_profile_arn is Some
            && s.plan.records.network is None,
        Phase::AwaitVpcPoll => s.plan.records.instance_profile_arn is Some
            && s.plan.records.network is None,
        Phase::AwaitVpcPersist => s.plan.records.instance_profile_arn is Some
            && s.plan.records.network is Some,
        Phase::AwaitAsgCreate => s.plan.records.instance_profile_arn is Some
            && s.plan.records.network is Some && s.plan.records.asg_logical_id is None,
        Phase::AwaitAsgPoll => s.plan.records.asg_logical_id is None,
        Phase::AwaitAsgPersist => s.plan.records.asg_logical_id is Some,
        _ => true,
    }
}

/// The workflow invariant: a valid plan, a ledger path naming a file, and the
/// per-phase record facts.
pub open spec fn workflow_wf(s: WorkflowView) -> bool {
    &&& plan_valid(s.plan)
    &&& spec_file_name(s.spec_file_path).len() > 0
    &&& phase_records_ok(s)
}

/// Enters the autoscaling-group step, or finishes when its record is already
/// populated.  The listing step runs only when the group was created in this
/// run, as a creation's follow-up.
pub open spec fn model_enter_asg(s: WorkflowView) -> (WorkflowView, ActionView) {
    if s.plan.records.asg_logical_id is None {
        (
            WorkflowView { phase: Phase::AwaitAsgCreate, ..s },
            ActionView::CreateStack {
                name: spec_encode_stack_name(StackNameView::AsgBlizzards(s.plan.id)),
                template: TemplateKind::AsgBlizzards,
                named_iam: false,
                on_failure_delete: true,
                parameters: spec_asg_params(s.plan),
            },
        )
    } else {
        model_finish(s)
    }
}

/// The successful end of a run: the teardown hint is emitted exactly when
/// the cancellation flag was set, and the run still reports success.
pub open spec fn model_finish(s: WorkflowView) -> (WorkflowView, ActionView) {
    (
        WorkflowView { phase: Phase::Done, ..s },
        ActionView::Finish { emit_teardown: s.cancelled },
    )
}

/// Enters the network step, or skips it when its record is populated.
pub open spec fn model_enter_vpc(s: WorkflowView) -> (WorkflowView, ActionView) {
    if s.plan.records.network is None {
        (
            WorkflowView { phase: Phase::AwaitVpcCreate, ..s },
            ActionView::CreateStack {
                name: spec_encode_stack_name(StackNameView::Vpc(s.plan.id)),
                template: TemplateKind::Vpc,
                named_iam: false,
                on_failure_delete: true,
                parameters: spec_vpc_params(s.plan),
            },
        )
    } else {
        model_enter_asg(s)
    }
}

/// Enters the instance-role step, or skips it when its record is populated.
pub open spec fn model_enter_role(s: WorkflowView) -> (WorkflowView, ActionView) {
    if s.plan.records.instance_profile_arn is None {
        (
            WorkflowView { phase: Phase::AwaitRoleCreate, ..s },
            ActionView::CreateStack {
                name: spec_encode_stack_name(StackNameView::Ec2InstanceRole(s.plan.id)),
                template: TemplateKind::Ec2InstanceRole,
                named_iam: true,
                on_failure_delete: true,
                parameters: spec_role_params(s.plan),
            },
        )
    } else {
        model_enter_vpc(s)
    }
}

/// Enters the key-pair step, or skips it when its record is populated.
pub open spec fn model_enter_keypair(s: WorkflowView) -> (WorkflowView, ActionView) {
    if s.plan.records.ec2_key_path is None {
        (
            WorkflowView { phase: Phase::AwaitKeyPair, ..s },
            ActionView::CreateKeyPair {
                key_name: spec_ec2_key_name(s.plan.id),
                key_path: spec_ec2_key_path(s.spec_file_path),
            },
        )
    } else {
        model_enter_role(s)
    }
}

/// Enters the artifact upload, or skips it when the plan references no local
/// install artifact.  The upload is an idempotent overwrite and is performed
/// on every run.
pub open spec fn model_enter_artifact(s: WorkflowView) -> (WorkflowView, ActionView) {
    match s.plan.blizzard_bin {
        Some(bin) => (
            WorkflowView { phase: Phase::AwaitArtifactUpload, ..s },
            ActionView::PutObject {
                local_path: bin,
                bucket: s.plan.s3_bucket,
                key: spec_encode_storage_key(StorageNamespaceView::BlizzardBin(s.plan.id)),
            },
        ),
        None => model_enter_keypair(s),
    }
}

/// Enters the bucket step, or skips it when its record is populated.
pub open spec fn model_enter_bucket(s: WorkflowView) -> (WorkflowView, ActionView) {
    if s.plan.records.bucket is None {
        (
            WorkflowView { phase: Phase::AwaitBucket, ..s },
            ActionView::CreateBucket { bucket: s.plan.s3_bucket },
        )
    } else {
        model_enter_artifact(s)
    }
}

/// The transition function of the sequencer: from a state and the result of
/// the pending effect, the next state and the next requested effect.  A
/// mismatched event is a protocol violation and fails the run; terminal
/// states absorb every event, re-emitting their outcome.
pub open spec fn model_step(s: WorkflowView, ev: EventView) -> (WorkflowView, ActionView) {
    match (s.phase, ev) {
        (Phase::Idle, EventView::Start) => (
            WorkflowView { phase: Phase::AwaitIdentity, ..s },
            ActionView::FetchIdentity,
        ),
        (Phase::AwaitIdentity, EventView::GotIdentity(observed)) => {
            if s.plan.identity matches Some(recorded) && recorded != observed {
                (
                    WorkflowView { phase: Phase::Failed(WorkflowError::IdentityMismatch), ..s },
                    ActionView::Fail { error: WorkflowError::IdentityMismatch },
                )
            } else {
                (
                    WorkflowView {
                        plan: PlanView { identity: Some(observed), ..s.plan },
                        phase: Phase::AwaitInitialPersist,
                        ..s
                    },
                    ActionView::PersistLedger { remote: false },
                )
            }
        },
        (Phase::AwaitInitialPersist, EventView::Completed) => model_enter_bucket(s),
        (Phase::AwaitBucket, EventView::Completed) => (
            WorkflowView {
                plan: PlanView {
                    records: RecordsView { bucket: Some(s.plan.s3_bucket), ..s.plan.records },
                    ..s.plan
                },
                phase: Phase::AwaitBucketPersist,
                ..s
            },
            ActionView::PersistLedger { remote: true },
        ),
        (Phase::AwaitBucketPersist, EventView::Completed) => model_enter_artifact(s),
        (Phase::AwaitArtifactUpload, EventView::Completed) => model_enter_keypair(s),
        (Phase::AwaitKeyPair, EventView::Completed) => (
            WorkflowView { phase: Phase::AwaitKeyUpload, ..s },
            ActionView::PutObject {
                local_path: spec_ec2_key_path(s.spec_file_path),
                bucket: s.plan.s3_bucket,
                key: spec_encode_storage_key(StorageNamespaceView::Ec2AccessKey(s.plan.id)),
            },
        ),
        (Phase::AwaitKeyUpload, EventView::Completed) => (
            WorkflowView {
                plan: PlanView {
                    records: RecordsView {
                        ec2_key_path: Some(spec_ec2_key_path(s.spec_file_path)),
                        ..s.plan.records
                    },
                    ..s.plan
                },
                phase: Phase::AwaitKeyPersist,
                ..s
            },
            ActionView::PersistLedger { remote: true },
        ),
        (Phase::AwaitKeyPersist, EventView::Completed) => model_enter_role(s),
        (Phase::AwaitRoleCreate, EventView::Completed) => (
            WorkflowView { phase: Phase::AwaitRolePoll, ..s },
            ActionView::PollStack {
                name: spec_encode_stack_name(StackNameView::Ec2InstanceRole(s.plan.id)),
                target: StackStatus::CreateComplete,
                timeout_secs: 500,
                interval_secs: 30,
                settle_secs: 10,
            },
        ),
        (Phase::AwaitRolePoll, EventView::StackReady(outs)) => {
            match spec_lookup_output(outs, "InstanceProfileArn"@) {
                Some(arn) => (
                    WorkflowView {
                        plan: PlanView {
                            records: RecordsView {
                                instance_profile_arn: Some(arn),
                                ..s.plan.records
                            },
                            ..s.plan
                        },
                        phase: Phase::AwaitRolePersist,
                        ..s
                    },
                    ActionView::PersistLedger { remote: true },
                ),
                None => (
                    WorkflowView { phase: Phase::Failed(WorkflowError::PartialProgress), ..s },
                    ActionView::Fail { error: WorkflowError::PartialProgress },
                ),
            }
        },
        (Phase::AwaitRolePoll, EventView::StackTimedOut) => (
            WorkflowView { phase: Phase::Failed(WorkflowError::PollTimeout), ..s },
            ActionView::Fail { error: WorkflowError::PollTimeout },
        ),
        (Phase::AwaitRolePersist, EventView::Completed) => model_enter_vpc(s),
        (Phase::AwaitVpcCreate, EventView::Completed) => (
            WorkflowView { phase: Phase::AwaitVpcPoll, ..s },
            ActionView::PollStack {
                name: spec_encode_stack_name(StackNameView::Vpc(s.plan.id)),
                target: StackStatus::CreateComplete,
                timeout_secs: 300,
                interval_secs: 30,
                settle_secs: 10,
            },
        ),
        (Phase::AwaitVpcPoll, EventView::StackReady(outs)) => {
            match spec_network_of_outputs(outs) {
                Some(network) => (
                    WorkflowView {
                        plan: PlanView {
                            records: RecordsView { network: Some(network), ..s.plan.records },
                            ..s.plan
                        },
                        phase: Phase::AwaitVpcPersist,
                        ..s
                    },
                    ActionView::PersistLedger { remote: true },
                ),
                None => (
                    WorkflowView { phase: Phase::Failed(WorkflowError::PartialProgress), ..s },
                    ActionView::Fail { error: WorkflowError::PartialProgress },
                ),
            }
        },
        (Phase::AwaitVpcPoll, EventView::StackTimedOut) => (
            WorkflowView { phase: Phase::Failed(WorkflowError::PollTimeout), ..s },
            ActionView::Fail { error: WorkflowError::PollTimeout },
        ),
        (Phase::AwaitVpcPersist, EventView::Completed) => model_enter_asg(s),
        (Phase::AwaitAsgCreate, EventView::Completed) => (
            WorkflowView { phase: Phase::AwaitAsgPoll, ..s },
            ActionView::PollStack {
                name: spec_encode_stack_name(StackNameView::AsgBlizzards(s.plan.id)),
                target: StackStatus::CreateComplete,
                timeout_secs: spec_asg_wait_secs(s.plan.machine.nodes),
                interval_secs: 30,
                settle_secs: 60,
            },
        ),
        (Phase::AwaitAsgPoll, EventView::StackReady(outs)) => {
            match spec_lookup_output(outs, "AsgLogicalId"@) {
                Some(asg_id) => (
                    WorkflowView {
                        plan: PlanView {
                            records: RecordsView {
                                asg_logical_id: Some(asg_id),
                                ..s.plan.records
                            },
                            ..s.plan
                        },
                        phase: Phase::AwaitAsgPersist,
                        ..s
                    },
                    ActionView::PersistLedger { remote: true },
                ),
                None => (
                    WorkflowView { phase: Phase::Failed(WorkflowError::PartialProgress), ..s },
                    ActionView::Fail { error: WorkflowError::PartialProgress },
                ),
            }
        },
        (Phase::AwaitAsgPoll, EventView::StackTimedOut) => (
            WorkflowView { phase: Phase::Failed(WorkflowError::PollTimeout), ..s },
            ActionView::Fail { error: WorkflowError::PollTimeout },
        ),
        (Phase::AwaitAsgPersist, EventView::Completed) => (
            WorkflowView { phase: Phase::AwaitListing, ..s },
            ActionView::ListGroup {
                group: s.plan.records.asg_logical_id->0,
                desired: s.plan.machine.nodes,
                max_attempts: 20,
                delay_secs: 30,
            },
        ),
        (Phase::AwaitListing, EventView::Listed(_)) => (
            WorkflowView { phase: Phase::AwaitFinalPersist, ..s },
            ActionView::PersistLedger { remote: true },
        ),
        (Phase::AwaitFinalPersist, EventView::Completed) => model_finish(s),
        (Phase::Done, _) => (s, ActionView::Finish { emit_teardown: s.cancelled }),
        (Phase::Failed(error), _) => (s, ActionView::Fail { error }),
        _ => (
            WorkflowView { phase: Phase::Failed(WorkflowError::ConfigError), ..s },
            ActionView::Fail { error: WorkflowError::ConfigError },
        ),
    }
}

/// The state and emitted actions of a whole run: `model_step` folded over a
/// sequence of events.
pub open spec fn model_run(s: WorkflowView, evs: Seq<EventView>) -> (WorkflowView, Seq<ActionView>)
    decreases evs.len(),
{
    if evs.len() == 0 {
        (s, Seq::empty())
    } else {
        let (s1, a) = model_step(s, evs[0]);
        let (s2, rest) = model_run(s1, evs.skip(1));
        (s2, seq![a] + rest)
    }
}

/// The provisioning workflow: the ledger, the ledger's path, the phase, and
/// the cancellation flag.
pub struct Workflow {
    pub plan: Plan,
    pub spec_file_path: String,
    pub phase: Phase,
    pub cancelled: bool,
}

impl View for Workflow {
    type V = WorkflowView;

    open spec fn view(&self) -> WorkflowView {
        WorkflowView {
            plan: self.plan@,
            spec_file_path: self.spec_file_path@,
            phase: self.phase,
            cancelled: self.cancelled,
        }
    }
}

impl Workflow {
    /// Starts a workflow over a loaded ledger.  A malformed plan, or a ledger
    /// path that does not name a file, is a fatal configuration error before
    /// anything runs.
    pub fn new(plan: Plan, spec_file_path: String) -> (r: Result<Workflow, WorkflowError>)
        ensures
            r is Ok <==> plan_valid(plan@) && spec_file_name(spec_file_path@).len() > 0,
            r matches Ok(w) ==> w@ == (WorkflowView {
                plan: plan@,
                spec_file_path: spec_file_path@,
                phase: Phase::Idle,
                cancelled: false,
            }) && workflow_wf(w@),
            r is Err ==> r == Err::<Workflow, WorkflowError>(WorkflowError::ConfigError),
    {
        if let Err(e) = validate(&plan) {
            return Err(e);
        }
        let n = spec_file_path.as_str().unicode_len();
        let named_file: bool = match crate::strutil::rfind_char(spec_file_path.as_str(), '/') {
            Some(k) => k + 1 < n,
            None => n > 0,
        };
        if !named_file {
            return Err(WorkflowError::ConfigError);
        }
        Ok(Workflow { plan, spec_file_path, phase: Phase::Idle, cancelled: false })
    }

    /// Records that the interrupt flag was raised.  The sequencer acts on it
    /// only at the safe point before finishing; no in-flight step changes.
    pub fn set_cancelled(&mut self)
        ensures
            final(self)@ == (WorkflowView { cancelled: true, ..old(self)@ }),
    {
        self.cancelled = true;
    }

    fn enter_asg(&mut self) -> (a: Action)
        requires
            plan_valid(old(self)@.plan),
            old(self)@.plan.records.asg_logical_id is None ==> old(
                self,
            )@.plan.records.instance_profile_arn is Some && old(self)@.plan.records.network
                is Some,
        ensures
            final(self)@ == model_enter_asg(old(self)@).0,
            a@ == model_enter_asg(old(self)@).1,
    {
        if self.plan.records.asg_logical_id.is_none() {
            let name = StackName::AsgBlizzards(self.plan.id.clone()).encode();
            let parameters = build_asg_params(&self.plan);
            self.phase = Phase::AwaitAsgCreate;
            Action::CreateStack {
                name,
                template: TemplateKind::AsgBlizzards,
                named_iam: false,
                on_failure_delete: true,
                parameters,
            }
        } else {
            self.phase = Phase::Done;
            Action::Finish { emit_teardown: self.cancelled }
        }
    }

    fn enter_vpc(&mut self) -> (a: Action)
        requires
            plan_valid(old(self)@.plan),
            old(self)@.plan.records.network is Some && old(self)@.plan.records.asg_logical_id
                is None ==> old(self)@.plan.records.instance_profile_arn is Some,
        ensures
            final(self)@ == model_enter_vpc(old(self)@).0,
            a@ == model_enter_vpc(old(self)@).1,
    {
        if self.plan.records.network.is_none() {
            let name = StackName::Vpc(self.plan.id.clone()).encode();
            let parameters = build_vpc_params(&self.plan);
            self.phase = Phase::AwaitVpcCreate;
            Action::CreateStack {
                name,
                template: TemplateKind::Vpc,
                named_iam: false,
                on_failure_delete: true,
                parameters,
            }
        } else {
            self.enter_asg()
        }
    }

    fn enter_role(&mut self) -> (a: Action)
        requires
            plan_valid(old(self)@.plan),
        ensures
            final(self)@ == model_enter_role(old(self)@).0,
            a@ == model_enter_role(old(self)@).1,
    {
        if self.plan.records.instance_profile_arn.is_none() {
            let name = StackName::Ec2InstanceRole(self.plan.id.clone()).encode();
            let parameters = build_role_params(&self.plan);
            self.phase = Phase::AwaitRoleCreate;
            Action::CreateStack {
                name,
                template: TemplateKind::Ec2InstanceRole,
                named_iam: true,
                on_failure_delete: true,
                parameters,
            }
        } else {
            self.enter_vpc()
        }
    }

    fn enter_keypair(&mut self) -> (a: Action)
        requires
            plan_valid(old(self)@.plan),
            spec_file_name(old(self)@.spec_file_path).len() > 0,
        ensures
            final(self)@ == model_enter_keypair(old(self)@).0,
            a@ == model_enter_keypair(old(self)@).1,
    {
        if self.plan.records.ec2_key_path.is_none() {
            let key_name = ec2_key_name(self.plan.id.as_str());
            let key_path = get_ec2_key_path(self.spec_file_path.as_str());
            self.phase = Phase::AwaitKeyPair;
            Action::CreateKeyPair { key_name, key_path }
        } else {
            self.enter_role()
        }
    }

    fn enter_artifact(&mut self) -> (a: Action)
        requires
            plan_valid(old(self)@.plan),
            spec_file_name(old(self)@.spec_file_path).len() > 0,
        ensures
            final(self)@ == model_enter_artifact(old(self)@).0,
            a@ == model_enter_artifact(old(self)@).1,
    {
        if let Some(bin) = &self.plan.install_artifacts.blizzard_bin {
            let local_path = bin.clone();
            let bucket = self.plan.s3_bucket.clone();
            let key = StorageNamespace::BlizzardBin(self.plan.id.clone()).encode();
            self.phase = Phase::AwaitArtifactUpload;
            Action::PutObject { local_path, bucket, key }
        } else {
            self.enter_keypair()
        }
    }

    fn enter_bucket(&mut self) -> (a: Action)
        requires
            plan_valid(old(self)@.plan),
            spec_file_name(old(self)@.spec_file_path).len() > 0,
        ensures
            final(self)@ == model_enter_bucket(old(self)@).0,
            a@ == model_enter_bucket(old(self)@).1,
    {
        if self.plan.records.bucket.is_none() {
            let bucket = self.plan.s3_bucket.clone();
            self.phase = Phase::AwaitBucket;
            Action::CreateBucket { bucket }
        } else {
            self.enter_artifact()
        }
    }

    /// One decision of the sequencer: consumes the result of the pending
    /// effect and produces the next effect to perform.  Refines
    /// [`model_step`] exactly and preserves the workflow invariant.
    pub fn step(&mut self, ev: Event) -> (a: Action)
        requires
            workflow_wf(old(self)@),
        ensures
            final(self)@ == model_step(old(self)@, ev@).0,
            a@ == model_step(old(self)@, ev@).1,
            workflow_wf(final(self)@),
            records_le(old(self)@.plan.records, final(self)@.plan.records),
    {
        let ghost s0 = self@;
        let a = match (self.phase, ev) {
            (Phase::Idle, Event::Start) => {
                self.phase = Phase::AwaitIdentity;
                Action::FetchIdentity
            },
            (Phase::AwaitIdentity, Event::GotIdentity(observed)) => {
                match check_identity(&self.plan.identity, observed) {
                    Ok(identity) => {
                        self.plan.identity = Some(identity);
                        self.phase = Phase::AwaitInitialPersist;
                        Action::PersistLedger { remote: false }
                    },
                    Err(error) => {
                        self.phase = Phase::Failed(error);
                        Action::Fail { error }
                    },
                }
            },
            (Phase::AwaitInitialPersist, Event::Completed) => self.enter_bucket(),
            (Phase::AwaitBucket, Event::Completed) => {
                self.plan.records.bucket = Some(self.plan.s3_bucket.clone());
                self.phase = Phase::AwaitBucketPersist;
                Action::PersistLedger { remote: true }
            },
            (Phase::AwaitBucketPersist, Event::Completed) => self.enter_artifact(),
            (Phase::AwaitArtifactUpload, Event::Completed) => self.enter_keypair(),
            (Phase::AwaitKeyPair, Event::Completed) => {
                let local_path = get_ec2_key_path(self.spec_file_path.as_str());
                let bucket = self.plan.s3_bucket.clone();
                let key = StorageNamespace::Ec2AccessKey(self.plan.id.clone()).encode();
                self.phase = Phase::AwaitKeyUpload;
                Action::PutObject { local_path, bucket, key }
            },
            (Phase::AwaitKeyUpload, Event::Completed) => {
                let key_path = get_ec2_key_path(self.spec_file_path.as_str());
                self.plan.records.ec2_key_path = Some(key_path);
                self.phase = Phase::AwaitKeyPersist;
                Action::PersistLedger { remote: true }
            },
            (Phase::AwaitKeyPersist, Event::Completed) => self.enter_role(),
            (Phase::AwaitRoleCreate, Event::Completed) => {
                let name = StackName::Ec2InstanceRole(self.plan.id.clone()).encode();
                self.phase = Phase::AwaitRolePoll;
                Action::PollStack {
                    name,
                    target: StackStatus::CreateComplete,
                    timeout_secs: 500,
                    interval_secs: 30,
                    settle_secs: 10,
                }
            },
            (Phase::AwaitRolePoll, Event::StackReady(outs)) => {
                match extract_required_output(&outs, "InstanceProfileArn") {
                    Ok(arn) => {
                        self.plan.records.instance_profile_arn = Some(arn);
                        self.phase = Phase::AwaitRolePersist;
                        Action::PersistLedger { remote: true }
                    },
                    Err(error) => {
                        self.phase = Phase::Failed(error);
                        Action::Fail { error }
                    },
                }
            },
            (Phase::AwaitRolePoll, Event::StackTimedOut) => {
                self.phase = Phase::Failed(WorkflowError::PollTimeout);
                Action::Fail { error: WorkflowError::PollTimeout }
            },
            (Phase::AwaitRolePersist, Event::Completed) => self.enter_vpc(),
            (Phase::AwaitVpcCreate, Event::Completed) => {
                let name = StackName::Vpc(self.plan.id.clone()).encode();
                self.phase = Phase::AwaitVpcPoll;
                Action::PollStack {
                    name,
                    target: StackStatus::CreateComplete,
                    timeout_secs: 300,
                    interval_secs: 30,
                    settle_secs: 10,
                }
            },
            (Phase::AwaitVpcPoll, Event::StackReady(outs)) => {
                match extract_network(&outs) {
                    Ok(network) => {
                        self.plan.records.network = Some(network);
                        self.phase = Phase::AwaitVpcPersist;
                        Action::PersistLedger { remote: true }
                    },
                    Err(error) => {
                        self.phase = Phase::Failed(error);
                        Action::Fail { error }
                    },
                }
            },
            (Phase::AwaitVpcPoll, Event::StackTimedOut) => {
                self.phase = Phase::Failed(WorkflowError::PollTimeout);
                Action::Fail { error: WorkflowError::PollTimeout }
            },
            (Phase::AwaitVpcPersist, Event::Completed) => self.enter_asg(),
            (Phase::AwaitAsgCreate, Event::Completed) => {
                let name = StackName::AsgBlizzards(self.plan.id.clone()).encode();
                let timeout_secs = asg_wait_secs(self.plan.machine.nodes);
                self.phase = Phase::AwaitAsgPoll;
                Action::PollStack {
                    name,
                    target: StackStatus::CreateComplete,
                    timeout_secs,
                    interval_secs: 30,
                    settle_secs: 60,
                }
            },
            (Phase::AwaitAsgPoll, Event::StackReady(outs)) => {
                match extract_required_output(&outs, "AsgLogicalId") {
                    Ok(asg_id) => {
                        self.plan.records.asg_logical_id = Some(asg_id);
                        self.phase = Phase::AwaitAsgPersist;
                        Action::PersistLedger { remote: true }
                    },
                    Err(error) => {
                        self.phase = Phase::Failed(error);
                        Action::Fail { error }
                    },
                }
            },
            (Phase::AwaitAsgPoll, Event::StackTimedOut) => {
                self.phase = Phase::Failed(WorkflowError::PollTimeout);
                Action::Fail { error: WorkflowError::PollTimeout }
            },
            (Phase::AwaitAsgPersist, Event::Completed) => {
                let group = self.plan.records.asg_logical_id.as_ref().unwrap().clone();
                self.phase = Phase::AwaitListing;
                Action::ListGroup {
                    group,
                    desired: self.plan.machine.nodes,
                    max_attempts: 20,
                    delay_secs: 30,
                }
            },
            (Phase::AwaitListing, Event::Listed(_)) => {
                self.phase = Phase::AwaitFinalPersist;
                Action::PersistLedger { remote: true }
            },
            (Phase::AwaitFinalPersist, Event::Completed) => {
                self.phase = Phase::Done;
                Action::Finish { emit_teardown: self.cancelled }
            },
            (Phase::Done, _) => Action::Finish { emit_teardown: self.cancelled },
            (Phase::Failed(error), _) => Action::Fail { error },
            _ => {
                self.phase = Phase::Failed(WorkflowError::ConfigError);
                Action::Fail { error: WorkflowError::ConfigError }
            },
        };
        proof {
            assert(self@ == model_step(s0, ev@).0);
            assert(a@ == model_step(s0, ev@).1);
        }
        a
    }
}

} // verus!
