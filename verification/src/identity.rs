//! The identity guard: the caller identity recorded in the ledger, once set,
//! must equal the identity observed on every later run.

use vstd::prelude::*;

use crate::errors::WorkflowError;

verus! {

/// The caller identity returned by the identity service.
#[derive(Clone, Debug)]
pub struct Identity {
    pub account_id: String,
    pub role_arn: String,
    pub user_id: String,
}

/// The mathematical value of an [`Identity`].
#[verifier::ext_equal]
pub struct IdentityView {
    pub account_id: Seq<char>,
    pub role_arn: Seq<char>,
    pub user_id: Seq<char>,
}

impl View for Identity {
    type V = IdentityView;

    open spec fn view(&self) -> IdentityView {
        IdentityView {
            account_id: self.account_id@,
            role_arn: self.role_arn@,
            user_id: self.user_id@,
        }
    }
}

impl DeepView for Identity {
    type V = IdentityView;

    open spec fn deep_view(&self) -> IdentityView {
        self.view()
    }
}

impl PartialEq for Identity {
    fn eq(&self, other: &Identity) -> (r: bool) {
        self.account_id == other.account_id && self.role_arn == other.role_arn
            && self.user_id == other.user_id
    }
}

impl vstd::std_specs::cmp::PartialEqSpecImpl for Identity {
    open spec fn obeys_eq_spec() -> bool {
        true
    }

    open spec fn eq_spec(&self, other: &Identity) -> bool {
        self@ == other@
    }
}

impl Eq for Identity {}

/// Enforces that the recorded caller identity, if any, matches the observed
/// one.  With no recorded identity the observed one is returned, to be
/// recorded; a mismatch is fatal and non-retryable.
pub fn check_identity(recorded: &Option<Identity>, current: Identity) -> (r: Result<
    Identity,
    WorkflowError,
>)
    ensures
        recorded is None ==> r == Ok::<Identity, WorkflowError>(current),
        recorded matches Some(rec) && rec@ == current@ ==> r == Ok::<Identity, WorkflowError>(
            current,
        ),
        recorded matches Some(rec) && rec@ != current@ ==> r == Err::<Identity, WorkflowError>(
            WorkflowError::IdentityMismatch,
        ),
{
    match recorded {
        None => Ok(current),
        Some(rec) => {
            if *rec == current {
                Ok(current)
            } else {
                Err(WorkflowError::IdentityMismatch)
            }
        },
    }
}

} // verus!
