//! Creating records: the shared counter, once, and one project for each
//! title and creator, at the address that the two derive.

use vstd::prelude::*;
use crate::derivation::DerivedAddress;
use crate::derivation::MAX_SEED_LEN;
use crate::derivation::find_project_address;
use crate::derivation::project_address;
use crate::error::LedgerError;
use crate::error::TransferError;
use crate::identity::Identity;
use crate::ledger::Project;
use crate::ledger::ProjectView;
use crate::ledger::State;

verus! {

/// The accounts that the shared counter is set up with.
#[derive(Clone, Copy, Debug, PartialEq, Eq)]
pub struct Initialize {
    /// The counter's record, if there is one already.
    pub state: Option<State>,
    /// The identity that sets the counter up.
    pub user: Identity,
    /// Whether that identity authorised the request.
    pub user_signed: bool,
}

/// What setting up the counter comes to: the accounts afterwards, with the
/// counter at zero, or the reason for which nothing was written.
pub open spec fn initialization_result(accounts: Initialize) -> Result<Initialize, LedgerError> {
    if !accounts.user_signed {
        Err(LedgerError::Unauthorized)
    } else if accounts.state is Some {
        Err(LedgerError::AlreadyExists)
    } else {
        Ok(Initialize { state: Some(State { project_count: 0 }), ..accounts })
    }
}

/// Sets up the shared counter at zero. There is at most one counter: where
/// one stands already, it is left as it is.
pub fn initialize(accounts: &mut Initialize) -> (r: Result<(), LedgerError>)
    ensures
        match initialization_result(*old(accounts)) {
            Ok(next) => r is Ok && *final(accounts) == next,
            Err(e) => r == Err::<(), LedgerError>(e) && *final(accounts) == *old(accounts),
        },
{
    if !accounts.user_signed {
        return Err(LedgerError::Unauthorized);
    }
    if accounts.state.is_some() {
        return Err(LedgerError::AlreadyExists);
    }
    accounts.state = Some(State { project_count: 0 });
    Ok(())
}

/// What creation does where a record already stands at the address.
#[derive(Clone, Copy, Debug, PartialEq, Eq)]
pub enum CreationMode {
    /// Create if absent: a second creation is refused.
    CreateIfAbsent,
    /// Create, and overwrite if present: a second creation writes the
    /// record anew.
    CreateOrOverwrite,
}

/// The accounts that a project is created with.
#[derive(Clone, Debug, PartialEq, Eq)]
pub struct CreateProject {
    /// The address of the account supplied for the record.
    pub project_key: Identity,
    /// The record that this account holds, if it holds one.
    pub project: Option<Project>,
    /// The shared counter, where one is kept.
    pub state: Option<State>,
    /// The creating identity.
    pub user: Identity,
    /// Whether the creating identity authorised the request.
    pub user_signed: bool,
}

/// The accounts of a creation as a mathematical value.
pub struct CreateProjectView {
    pub project_key: Identity,
    pub project: Option<ProjectView>,
    pub state: Option<State>,
    pub user: Identity,
    pub user_signed: bool,
}

impl View for CreateProject {
    type V = CreateProjectView;

    open spec fn view(&self) -> CreateProjectView {
        CreateProjectView {
            project_key: self.project_key,
            project: match self.project {
                Some(project) => Some(project@),
                None => None,
            },
            state: self.state,
            user: self.user,
            user_signed: self.user_signed,
        }
    }
}

/// The error that a creation reports when the host could not pay for the
/// record's storage.
pub open spec fn storage_error(reported: TransferError) -> LedgerError {
    match reported {
        TransferError::InsufficientFunds => LedgerError::InsufficientFunds,
        TransferError::TransferFailed => LedgerError::TransferFailed,
    }
}

/// The counter after one more creation.
pub open spec fn counted(state: Option<State>) -> Option<State> {
    match state {
        Some(s) => Some(State { project_count: (s.project_count + 1) as u64 }),
        None => None,
    }
}

/// What a creation comes to, given the address that title and creator
/// derive and what the host reported of paying for the record's storage:
/// the accounts afterwards, or the reason for which nothing was written.
///
/// The creator must have signed, and the account must be the one at the
/// derived address. A record already there is overwritten or the creation
/// refused, as `mode` says. Storage is paid for only where no record stood.
/// The counter, where one is kept, goes up by one with the write.
pub open spec fn creation_result(
    accounts: CreateProjectView,
    title: Seq<char>,
    description: Seq<char>,
    target: u64,
    now: i64,
    derived: Option<DerivedAddress>,
    mode: CreationMode,
    storage: Result<(), TransferError>,
) -> Result<CreateProjectView, LedgerError> {
    if !accounts.user_signed {
        Err(LedgerError::Unauthorized)
    } else if !(derived is Some && derived->Some_0.address == accounts.project_key) {
        Err(LedgerError::InvalidAccount)
    } else if accounts.project is Some && mode is CreateIfAbsent {
        Err(LedgerError::AlreadyExists)
    } else if accounts.project is None && storage is Err {
        Err(storage_error(storage->Err_0))
    } else if accounts.state is Some && accounts.state->Some_0.project_count == u64::MAX {
        Err(LedgerError::ArithmeticOverflow)
    } else {
        Ok(
            CreateProjectView {
                project: Some(ProjectView::fresh(title, description, target, accounts.user, now)),
                state: counted(accounts.state),
                ..accounts
            },
        )
    }
}

/// Creates a project for a given derived address: writes the whole record,
/// with nothing collected and nobody on the roster, and counts it. Where
/// the creation is refused, the accounts stay as they were.
///
/// Refused with `Unauthorized` where the creator did not sign, else with
/// `InvalidAccount` where there is no derived address or the account is at
/// another, else with `AlreadyExists` where a record stands and `mode` is
/// create-if-absent, else, where no record stands, with what the host
/// reported if it could not pay for storage, else with `ArithmeticOverflow`
/// where the counter is full.
pub fn apply_creation(
    accounts: &mut CreateProject,
    title: String,
    description: String,
    target: u64,
    now: i64,
    derived: Option<DerivedAddress>,
    mode: CreationMode,
    storage: Result<(), TransferError>,
) -> (r: Result<(), LedgerError>)
    ensures
        match creation_result(old(accounts)@, title@, description@, target, now, derived, mode, storage) {
            Ok(next) => r is Ok && final(accounts)@ == next,
            Err(e) => r == Err::<(), LedgerError>(e) && *final(accounts) == *old(accounts),
        },
        r is Ok ==> final(accounts).project->Some_0.wf(),
{
    if !accounts.user_signed {
        return Err(LedgerError::Unauthorized);
    }
    match derived {
        Some(d) => {
            if d.address != accounts.project_key {
                return Err(LedgerError::InvalidAccount);
            }
        },
        None => {
            return Err(LedgerError::InvalidAccount);
        },
    }
    if accounts.project.is_some() {
        match mode {
            CreationMode::CreateIfAbsent => {
                return Err(LedgerError::AlreadyExists);
            },
            CreationMode::CreateOrOverwrite => {},
        }
    } else {
        match storage {
            Err(TransferError::InsufficientFunds) => {
                return Err(LedgerError::InsufficientFunds);
            },
            Err(TransferError::TransferFailed) => {
                return Err(LedgerError::TransferFailed);
            },
            Ok(_) => {},
        }
    }
    let state = match accounts.state {
        Some(s) => {
            if s.project_count == u64::MAX {
                return Err(LedgerError::ArithmeticOverflow);
            }
            Some(State { project_count: s.project_count + 1 })
        },
        None => None,
    };
    accounts.project = Some(Project::new(title, description, target, accounts.user, now));
    accounts.state = state;
    Ok(())
}

/// Creates the project that the caller opens under `title`: derives its
/// address, and writes and counts the record as `apply_creation` does for
/// that address.
pub fn create_project(
    accounts: &mut CreateProject,
    title: String,
    description: String,
    target: u64,
    now: i64,
    program_id: &Identity,
    mode: CreationMode,
    storage: Result<(), TransferError>,
) -> (r: Result<(), LedgerError>)
    ensures
        match creation_result(
            old(accounts)@,
            title@,
            description@,
            target,
            now,
            project_address(title@, old(accounts).user, *program_id),
            mode,
            storage,
        ) {
            Ok(next) => r is Ok && final(accounts)@ == next,
            Err(e) => r == Err::<(), LedgerError>(e) && *final(accounts) == *old(accounts),
        },
        old(accounts).user_signed && vstd::utf8::encode_utf8(title@).len() > MAX_SEED_LEN ==> r == Err::<
            (),
            LedgerError,
        >(LedgerError::InvalidAccount),
        r is Ok ==> final(accounts).project->Some_0.wf(),
{
    let derived = find_project_address(title.as_str(), &accounts.user, program_id);
    apply_creation(accounts, title, description, target, now, derived, mode, storage)
}

} // verus!
