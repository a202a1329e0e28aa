//! Investing in a project. The host moves the funds; this module decides
//! whether it may, with what authority, and what the record becomes once it
//! has.
//!
//! An investment runs in two steps around the host's transfer:
//! `authorize_transfer` checks the request and says which transfer to make;
//! `invest` takes what the host reported of it and books the investment.

use vstd::prelude::*;
use crate::derivation::DerivedAddress;
use crate::derivation::MAX_SEED_LEN;
use crate::derivation::find_program_address;
use crate::derivation::make_project_seeds;
use crate::derivation::project_address;
use crate::derivation::project_seeds;
use crate::derivation::seed_bytes;
use crate::error::LedgerError;
use crate::error::TransferError;
use crate::identity::Identity;
use crate::ledger::Project;
use crate::ledger::ProjectView;
use crate::transfer::Instruction;
use crate::transfer::is_transfer;
use crate::transfer::transfer;

verus! {

/// Proof that the program controls a derived address: the seeds that the
/// address was derived from and the bump that completes them. Only this
/// module makes one, and only after it has derived the address anew.
#[derive(Clone, Debug, PartialEq, Eq)]
pub struct DerivedProof {
    seeds: Vec<Vec<u8>>,
    bump: u8,
}

impl DerivedProof {
    /// The seeds presented, as byte sequences.
    pub closed spec fn seeds_view(&self) -> Seq<Seq<u8>> {
        seed_bytes(self.seeds@)
    }

    /// The bump presented.
    pub closed spec fn bump_view(&self) -> u8 {
        self.bump
    }

    /// The seeds presented.
    pub fn seeds(&self) -> (seeds: &Vec<Vec<u8>>)
        ensures
            seed_bytes(seeds@) == self.seeds_view(),
    {
        &self.seeds
    }

    /// The bump presented.
    pub fn bump(&self) -> (bump: u8)
        ensures
            bump == self.bump_view(),
    {
        self.bump
    }
}

/// What entitles a transfer to be made.
#[derive(Clone, Debug, PartialEq, Eq)]
pub enum Authorization {
    /// The holder of the paying account signed the request.
    HolderSignature(Identity),
    /// The program presents the derivation of an address it controls.
    DerivedProof(DerivedProof),
}

impl Authorization {
    /// Whether this is the proof made of exactly these seeds and this bump.
    pub open spec fn is_derived_proof(&self, seeds: Seq<Seq<u8>>, bump: u8) -> bool {
        match self {
            Authorization::DerivedProof(proof) => proof.seeds_view() == seeds && proof.bump_view() == bump,
            Authorization::HolderSignature(_) => false,
        }
    }
}

/// A transfer for the host to make: who pays whom how much, the
/// instruction that says so to the host's system program, and the authority
/// that the transfer is made with.
#[derive(Clone, Debug, PartialEq, Eq)]
pub struct Transfer {
    pub from: Identity,
    pub to: Identity,
    pub amount: u64,
    pub instruction: Instruction,
    pub authorization: Authorization,
}

impl Transfer {
    /// Whether this is the transfer of `amount` from `from` to `to`, made
    /// on a proof of exactly these seeds and this bump.
    pub open spec fn is_derived_transfer(
        &self,
        from: Identity,
        to: Identity,
        amount: u64,
        seeds: Seq<Seq<u8>>,
        bump: u8,
    ) -> bool {
        &&& self.from == from
        &&& self.to == to
        &&& self.amount == amount
        &&& is_transfer(self.instruction@, from, to, amount)
        &&& self.authorization.is_derived_proof(seeds, bump)
    }
}

/// The accounts that an investment is made with.
#[derive(Clone, Debug, PartialEq, Eq)]
pub struct Invest {
    /// The address of the account supplied as the project's.
    pub project_key: Identity,
    /// The record that this account holds, if it holds one.
    pub project: Option<Project>,
    /// The investing identity.
    pub user: Identity,
    /// Whether the investing identity authorised the request.
    pub user_signed: bool,
}

/// The accounts of an investment as a mathematical value.
pub struct InvestView {
    pub project_key: Identity,
    pub project: Option<ProjectView>,
    pub user: Identity,
    pub user_signed: bool,
}

impl View for Invest {
    type V = InvestView;

    open spec fn view(&self) -> InvestView {
        InvestView {
            project_key: self.project_key,
            project: match self.project {
                Some(project) => Some(project@),
                None => None,
            },
            user: self.user,
            user_signed: self.user_signed,
        }
    }
}

/// Whether the accounts admit an investment, given the address that the
/// record's title and creator derive: the account must hold a record, the
/// investor must have signed, and the account must be the one at the derived
/// address. The checks are made in this order; the bump of the address comes
/// back.
pub open spec fn admission(accounts: InvestView, derived: Option<DerivedAddress>) -> Result<u8, LedgerError> {
    if accounts.project is None {
        Err(LedgerError::NotFound)
    } else if !accounts.user_signed {
        Err(LedgerError::Unauthorized)
    } else {
        match derived {
            Some(d) => if d.address == accounts.project_key {
                Ok(d.bump)
            } else {
                Err(LedgerError::InvalidAccount)
            },
            None => Err(LedgerError::InvalidAccount),
        }
    }
}

/// The address that the supplied record's own title and creator derive under
/// `program`.
pub open spec fn expected_address(accounts: InvestView, program: Identity) -> Option<DerivedAddress> {
    match accounts.project {
        Some(project) => project_address(project.title, project.creator, program),
        None => None,
    }
}

/// What an investment of `amount` comes to, given the derived address and
/// what the host reported of the transfer: the accounts afterwards, or the
/// reason for which nothing was booked.
pub open spec fn investment_result(
    accounts: InvestView,
    amount: u64,
    derived: Option<DerivedAddress>,
    transfer: Result<(), TransferError>,
) -> Result<InvestView, LedgerError> {
    match admission(accounts, derived) {
        Err(e) => Err(e),
        Ok(_) => {
            let project = accounts.project->Some_0;
            if transfer is Err {
                Err(LedgerError::TransferFailed)
            } else if !project.can_record(accounts.user, amount) {
                Err(LedgerError::ArithmeticOverflow)
            } else {
                Ok(InvestView { project: Some(project.invested(accounts.user, amount)), ..accounts })
            }
        },
    }
}

/// Checks the accounts of an investment against the address derived for the
/// record, and gives the bump of that address.
///
/// Refused with `NotFound` where the account holds no record, else with
/// `Unauthorized` where the investor did not sign, else with
/// `InvalidAccount` where there is no derived address or the account is at
/// another.
pub fn check_accounts(accounts: &Invest, derived: Option<DerivedAddress>) -> (r: Result<u8, LedgerError>)
    ensures
        r == admission(accounts@, derived),
{
    if accounts.project.is_none() {
        return Err(LedgerError::NotFound);
    }
    if !accounts.user_signed {
        return Err(LedgerError::Unauthorized);
    }
    match derived {
        Some(d) => {
            if d.address == accounts.project_key {
                Ok(d.bump)
            } else {
                Err(LedgerError::InvalidAccount)
            }
        },
        None => Err(LedgerError::InvalidAccount),
    }
}

/// First step of an investment: derives the record's address anew, checks
/// the accounts against it, and says which transfer the host is to make:
/// `amount` from the investor to the project's own account, on the
/// authority of the derivation.
///
/// Refused with `NotFound` where the account holds no record, else with
/// `Unauthorized` where the investor did not sign, else with
/// `InvalidAccount` where the account is not at the address that the
/// record's title and creator derive.
pub fn authorize_transfer(accounts: &Invest, amount: u64, program_id: &Identity) -> (r: Result<Transfer, LedgerError>)
    requires
        amount > 0,
    ensures
        match admission(accounts@, expected_address(accounts@, *program_id)) {
            Ok(bump) => r is Ok && r->Ok_0.is_derived_transfer(
                accounts.user,
                accounts.project_key,
                amount,
                project_seeds(accounts@.project->Some_0.title, accounts@.project->Some_0.creator),
                bump,
            ),
            Err(e) => r is Err && r->Err_0 == e,
        },
{
    match &accounts.project {
        None => Err(LedgerError::NotFound),
        Some(project) => {
            if !accounts.user_signed {
                return Err(LedgerError::Unauthorized);
            }
            let seeds = make_project_seeds(project.title.as_str(), &project.creator);
            let derived = find_program_address(&seeds, program_id);
            match check_accounts(accounts, derived) {
                Err(e) => Err(e),
                Ok(bump) => Ok(
                    Transfer {
                        from: accounts.user,
                        to: accounts.project_key,
                        amount,
                        instruction: transfer(&accounts.user, &accounts.project_key, amount),
                        authorization: Authorization::DerivedProof(DerivedProof { seeds, bump }),
                    },
                ),
            }
        },
    }
}

/// Second step of an investment, for a given derived address: books the
/// investment if the accounts admit it and the host made the transfer.
/// Otherwise the accounts stay as they were.
///
/// Refused as `check_accounts` refuses, else with `TransferFailed` where
/// the host reported that it moved no funds, else with `ArithmeticOverflow`
/// where the total or the investor count would not fit.
pub fn apply_investment(
    accounts: &mut Invest,
    amount: u64,
    derived: Option<DerivedAddress>,
    transfer: Result<(), TransferError>,
) -> (r: Result<(), LedgerError>)
    requires
        amount > 0,
    ensures
        match investment_result(old(accounts)@, amount, derived, transfer) {
            Ok(next) => r is Ok && final(accounts)@ == next,
            Err(e) => r == Err::<(), LedgerError>(e) && *final(accounts) == *old(accounts),
        },
        transfer is Err ==> r is Err && *final(accounts) == *old(accounts),
        old(accounts).project is Some && old(accounts).project->Some_0.wf() ==> final(accounts).project->Some_0.wf(),
{
    match check_accounts(accounts, derived) {
        Err(e) => {
            return Err(e);
        },
        Ok(_) => {},
    }
    if transfer.is_err() {
        return Err(LedgerError::TransferFailed);
    }
    let user = accounts.user;
    match &mut accounts.project {
        Some(project) => project.record_investment(&user, amount),
        None => Err(LedgerError::NotFound),
    }
}

/// Second step of an investment: derives the record's address anew and
/// books the investment if the accounts admit it and the host made the
/// transfer. Otherwise the accounts stay as they were.
///
/// Refused with `NotFound` where the account holds no record, else with
/// `Unauthorized` where the investor did not sign, else with
/// `InvalidAccount` where the account is not at the address that the
/// record's title and creator derive, else with `TransferFailed` where the
/// host reported that it moved no funds, else with `ArithmeticOverflow`
/// where the total or the investor count would not fit.
pub fn invest(
    accounts: &mut Invest,
    amount: u64,
    program_id: &Identity,
    transfer: Result<(), TransferError>,
) -> (r: Result<(), LedgerError>)
    requires
        amount > 0,
    ensures
        match investment_result(old(accounts)@, amount, expected_address(old(accounts)@, *program_id), transfer) {
            Ok(next) => r is Ok && final(accounts)@ == next,
            Err(e) => r == Err::<(), LedgerError>(e) && *final(accounts) == *old(accounts),
        },
        transfer is Err ==> r is Err && *final(accounts) == *old(accounts),
        old(accounts).project is Some && old(accounts).user_signed && !(expected_address(
            old(accounts)@,
            *program_id,
        ) is Some && expected_address(old(accounts)@, *program_id)->Some_0.address == old(accounts).project_key)
            ==> r == Err::<(), LedgerError>(LedgerError::InvalidAccount) && *final(accounts) == *old(accounts),
        old(accounts).project is Some && old(accounts).user_signed && vstd::utf8::encode_utf8(
            old(accounts).project->Some_0.title@,
        ).len() > MAX_SEED_LEN ==> r == Err::<(), LedgerError>(LedgerError::InvalidAccount),
        old(accounts).project is Some && old(accounts).project->Some_0.wf() ==> final(accounts).project->Some_0.wf(),
{
    let derived = match &accounts.project {
        Some(project) => crate::derivation::find_project_address(project.title.as_str(), &project.creator, program_id),
        None => None,
    };
    apply_investment(accounts, amount, derived, transfer)
}

} // verus!
