//! What holds of the ledger over whole histories: derivation is a function,
//! creation settles on one record, totals and counts add up, and a refused
//! operation leaves no trace.

use vstd::prelude::*;
use crate::creation::CreateProjectView;
use crate::creation::CreationMode;
use crate::creation::creation_result;
use crate::derivation::DerivedAddress;
use crate::derivation::is_search_outcome;
use crate::derivation::lemma_derived_address_unique;
use crate::derivation::project_address;
use crate::derivation::project_seeds;
use crate::error::LedgerError;
use crate::error::TransferError;
use crate::identity::Identity;
use crate::investment::InvestView;
use crate::investment::admission;
use crate::investment::expected_address;
use crate::investment::investment_result;
use crate::ledger::ProjectView;
use crate::ledger::lemma_invested_wf;

verus! {

/// One booked investment: who paid in, and how much.
pub struct Investment {
    pub investor: Identity,
    pub amount: u64,
}

/// The record after the given investments were booked, in order.
pub open spec fn replay(project: ProjectView, investments: Seq<Investment>) -> ProjectView
    decreases investments.len(),
{
    if investments.len() == 0 {
        project
    } else {
        replay(project, investments.drop_last()).invested(
            investments.last().investor,
            investments.last().amount,
        )
    }
}

/// The sum of the amounts invested.
pub open spec fn total_invested(investments: Seq<Investment>) -> nat
    decreases investments.len(),
{
    if investments.len() == 0 {
        0
    } else {
        total_invested(investments.drop_last()) + investments.last().amount as nat
    }
}

/// The identities that invested at least once.
pub open spec fn investors_of(investments: Seq<Investment>) -> Set<Identity> {
    Set::new(|id: Identity| exists|i: int| 0 <= i < investments.len() && (#[trigger] investments[i]).investor == id)
}

/// Deriving a project's address twice, from the same title, creator and
/// program, yields the same address and the same bump, or nothing both
/// times: any two outcomes of the search are the project's one address.
pub proof fn lemma_derivation_deterministic(
    title: Seq<char>,
    creator: Identity,
    program: Identity,
    first: Option<DerivedAddress>,
    second: Option<DerivedAddress>,
)
    requires
        is_search_outcome(first, project_seeds(title, creator), program),
        is_search_outcome(second, project_seeds(title, creator), program),
    ensures
        first == second,
        first == project_address(title, creator, program),
{
    lemma_derived_address_unique(first, project_seeds(title, creator), program);
    lemma_derived_address_unique(second, project_seeds(title, creator), program);
}

/// Creating a project a second time, with the same title and creator at the
/// same address, is refused with `AlreadyExists` where creation is
/// create-if-absent, and otherwise leaves the one record of the last write
/// that succeeded: the second write succeeds unless the counter is full, and
/// then the record is wholly that of the second creation.
pub proof fn lemma_creation_idempotence(
    accounts: CreateProjectView,
    title: Seq<char>,
    derived: Option<DerivedAddress>,
    mode: CreationMode,
    first_description: Seq<char>,
    first_target: u64,
    first_now: i64,
    first_storage: Result<(), TransferError>,
    second_description: Seq<char>,
    second_target: u64,
    second_now: i64,
    second_storage: Result<(), TransferError>,
)
    requires
        creation_result(accounts, title, first_description, first_target, first_now, derived, mode, first_storage) is Ok,
    ensures
        ({
            let created = creation_result(
                accounts,
                title,
                first_description,
                first_target,
                first_now,
                derived,
                mode,
                first_storage,
            )->Ok_0;
            let again = creation_result(
                created,
                title,
                second_description,
                second_target,
                second_now,
                derived,
                mode,
                second_storage,
            );
            &&& created.project == Some(
                ProjectView::fresh(title, first_description, first_target, accounts.user, first_now),
            )
            &&& mode is CreateIfAbsent ==> again == Err::<CreateProjectView, LedgerError>(LedgerError::AlreadyExists)
            &&& mode is CreateOrOverwrite ==> (again is Ok <==> !(created.state is Some
                && created.state->Some_0.project_count == u64::MAX))
            &&& again is Err ==> again->Err_0 == LedgerError::AlreadyExists || again->Err_0
                == LedgerError::ArithmeticOverflow
            &&& again is Ok ==> again->Ok_0.project == Some(
                ProjectView::fresh(title, second_description, second_target, accounts.user, second_now),
            )
        }),
{
}

/// A new last investment is booked on top of the earlier ones.
proof fn lemma_investors_of_push(investments: Seq<Investment>)
    requires
        investments.len() > 0,
    ensures
        investors_of(investments) == investors_of(investments.drop_last()).insert(investments.last().investor),
{
    let earlier = investments.drop_last();
    assert forall|id: Identity| investors_of(investments).contains(id) implies investors_of(earlier).insert(
        investments.last().investor,
    ).contains(id) by {
        let i = choose|i: int| 0 <= i < investments.len() && (#[trigger] investments[i]).investor == id;
        if i < earlier.len() {
            assert(earlier[i].investor == id);
        }
    }
    assert forall|id: Identity| investors_of(earlier).insert(investments.last().investor).contains(
        id,
    ) implies investors_of(investments).contains(id) by {
        if id == investments.last().investor {
            assert(investments[investments.len() - 1].investor == id);
        } else {
            let i = choose|i: int| 0 <= i < earlier.len() && (#[trigger] earlier[i]).investor == id;
            assert(investments[i].investor == id);
        }
    }
    assert(investors_of(investments) =~= investors_of(earlier).insert(investments.last().investor));
}

/// Over any sequence of booked investments the total grows by the sum of
/// the amounts, and the roster and the investor count come to the distinct
/// identities that were on the roster or invested. What was on the roster
/// stays where it was, and nothing else in the record changes.
pub proof fn lemma_replay_accounting(project: ProjectView, investments: Seq<Investment>)
    requires
        project.wf(),
    ensures
        replay(project, investments).wf(),
        replay(project, investments).amount_collected == project.amount_collected + total_invested(investments),
        replay(project, investments).investors.to_set() == project.investors.to_set().union(
            investors_of(investments),
        ),
        replay(project, investments).investor_count == project.investors.to_set().union(
            investors_of(investments),
        ).len(),
        project.investors.is_prefix_of(replay(project, investments).investors),
        replay(project, investments) == (ProjectView {
            amount_collected: replay(project, investments).amount_collected,
            investor_count: replay(project, investments).investor_count,
            investors: replay(project, investments).investors,
            ..project
        }),
    decreases investments.len(),
{
    if investments.len() == 0 {
        assert(investors_of(investments) =~= Set::empty());
        assert(project.investors.to_set().union(investors_of(investments)) =~= project.investors.to_set());
        project.investors.unique_seq_to_set();
    } else {
        let earlier = investments.drop_last();
        let last = investments.last();
        let before = replay(project, earlier);
        let after = replay(project, investments);
        lemma_replay_accounting(project, earlier);
        lemma_invested_wf(before, last.investor, last.amount);
        lemma_investors_of_push(investments);
        if before.investors.contains(last.investor) {
            assert(before.investors.to_set().contains(last.investor));
        } else {
            vstd::seq_lib::lemma_seq_contains_after_push(before.investors, last.investor, last.investor);
            assert forall|id: Identity| after.investors.to_set().contains(id) <==> before.investors.to_set().insert(
                last.investor,
            ).contains(id) by {
                vstd::seq_lib::lemma_seq_contains_after_push(before.investors, last.investor, id);
            }
        }
        assert(after.investors.to_set() =~= project.investors.to_set().union(investors_of(investments)));
        after.investors.unique_seq_to_set();
    }
}

/// From a record as it is first written, the total is the sum of the
/// amounts invested and the investor count is the number of distinct
/// investors.
pub proof fn lemma_accounting_from_fresh(
    title: Seq<char>,
    description: Seq<char>,
    target: u64,
    creator: Identity,
    created_at: i64,
    investments: Seq<Investment>,
)
    ensures
        replay(
            ProjectView::fresh(title, description, target, creator, created_at),
            investments,
        ).amount_collected == total_invested(investments),
        replay(
            ProjectView::fresh(title, description, target, creator, created_at),
            investments,
        ).investor_count == investors_of(investments).len(),
{
    let fresh = ProjectView::fresh(title, description, target, creator, created_at);
    lemma_replay_accounting(fresh, investments);
    assert(fresh.investors.to_set() =~= Set::empty());
    assert(fresh.investors.to_set().union(investors_of(investments)) =~= investors_of(investments));
}

/// One attempt to invest: who asked, whether they signed, how much, and
/// what the host reported of the transfer.
pub struct Attempt {
    pub user: Identity,
    pub user_signed: bool,
    pub amount: u64,
    pub transfer: Result<(), TransferError>,
}

/// What one attempt on the record at `project_key` comes to under
/// `program`.
pub open spec fn attempt_result(
    project_key: Identity,
    project: Option<ProjectView>,
    program: Identity,
    attempt: Attempt,
) -> Result<InvestView, LedgerError> {
    let accounts = InvestView { project_key, project, user: attempt.user, user_signed: attempt.user_signed };
    investment_result(accounts, attempt.amount, expected_address(accounts, program), attempt.transfer)
}

/// What the account at `project_key` holds after the attempts, in order. A
/// refused attempt leaves it as it was.
pub open spec fn run(
    project_key: Identity,
    project: Option<ProjectView>,
    program: Identity,
    attempts: Seq<Attempt>,
) -> Option<ProjectView>
    decreases attempts.len(),
{
    if attempts.len() == 0 {
        project
    } else {
        let before = run(project_key, project, program, attempts.drop_last());
        match attempt_result(project_key, before, program, attempts.last()) {
            Ok(after) => after.project,
            Err(_) => before,
        }
    }
}

/// The investments booked by the attempts: those that were not refused, in
/// order.
pub open spec fn booked(
    project_key: Identity,
    project: Option<ProjectView>,
    program: Identity,
    attempts: Seq<Attempt>,
) -> Seq<Investment>
    decreases attempts.len(),
{
    if attempts.len() == 0 {
        Seq::empty()
    } else {
        let before = run(project_key, project, program, attempts.drop_last());
        let earlier = booked(project_key, project, program, attempts.drop_last());
        if attempt_result(project_key, before, program, attempts.last()) is Ok {
            earlier.push(Investment { investor: attempts.last().user, amount: attempts.last().amount })
        } else {
            earlier
        }
    }
}

/// Over any sequence of attempts, the record comes to what the booked
/// investments make of it: the total collected is the total before plus the
/// sum of the amounts whose transfer was made and booked, and the investor
/// count is the number of distinct identities on the roster before or among
/// those who were booked. From a record as first written these are the sum
/// of the amounts and the number of distinct investors.
pub proof fn lemma_run_accounting(
    project_key: Identity,
    project: ProjectView,
    program: Identity,
    attempts: Seq<Attempt>,
)
    requires
        project.wf(),
    ensures
        run(project_key, Some(project), program, attempts) == Some(
            replay(project, booked(project_key, Some(project), program, attempts)),
        ),
        run(project_key, Some(project), program, attempts)->Some_0.wf(),
        run(project_key, Some(project), program, attempts)->Some_0.amount_collected == project.amount_collected
            + total_invested(booked(project_key, Some(project), program, attempts)),
        run(project_key, Some(project), program, attempts)->Some_0.investor_count
            == project.investors.to_set().union(
            investors_of(booked(project_key, Some(project), program, attempts)),
        ).len(),
        project.amount_collected == 0 && project.investors.len() == 0 ==> {
            &&& run(project_key, Some(project), program, attempts)->Some_0.amount_collected == total_invested(
                booked(project_key, Some(project), program, attempts),
            )
            &&& run(project_key, Some(project), program, attempts)->Some_0.investor_count == investors_of(
                booked(project_key, Some(project), program, attempts),
            ).len()
        },
    decreases attempts.len(),
{
    let investments = booked(project_key, Some(project), program, attempts);
    if attempts.len() > 0 {
        lemma_run_accounting(project_key, project, program, attempts.drop_last());
        let earlier = booked(project_key, Some(project), program, attempts.drop_last());
        let before = run(project_key, Some(project), program, attempts.drop_last());
        if attempt_result(project_key, before, program, attempts.last()) is Ok {
            assert(investments.drop_last() =~= earlier);
        }
    }
    lemma_replay_accounting(project, investments);
    if project.investors.len() == 0 {
        assert(project.investors.to_set() =~= Set::empty());
        assert(project.investors.to_set().union(investors_of(investments)) =~= investors_of(investments));
    }
}

/// Investing twice from the same identity adds both amounts to the total
/// and at most one to the investor count: one if the identity was not on
/// the roster before, none if it was.
pub proof fn lemma_no_double_counting(
    accounts: InvestView,
    derived: Option<DerivedAddress>,
    first_amount: u64,
    first_transfer: Result<(), TransferError>,
    second_amount: u64,
    second_transfer: Result<(), TransferError>,
)
    requires
        investment_result(accounts, first_amount, derived, first_transfer) is Ok,
        investment_result(
            investment_result(accounts, first_amount, derived, first_transfer)->Ok_0,
            second_amount,
            derived,
            second_transfer,
        ) is Ok,
    ensures
        ({
            let before = accounts.project->Some_0;
            let once = investment_result(accounts, first_amount, derived, first_transfer)->Ok_0;
            let twice = investment_result(once, second_amount, derived, second_transfer)->Ok_0;
            let after = twice.project->Some_0;
            &&& after.amount_collected == before.amount_collected + first_amount + second_amount
            &&& after.investor_count <= before.investor_count + 1
            &&& after.investor_count == before.investor_count + (if before.investors.contains(accounts.user) {
                0nat
            } else {
                1nat
            })
        }),
{
    let before = accounts.project->Some_0;
    vstd::seq_lib::lemma_seq_contains_after_push(before.investors, accounts.user, accounts.user);
}

/// Where the host did not make the transfer, the investment is refused:
/// with `TransferFailed` where the accounts admitted it, and with the
/// reason for which they did not otherwise.
pub proof fn lemma_failed_transfer_refused(
    accounts: InvestView,
    amount: u64,
    derived: Option<DerivedAddress>,
    transfer: Result<(), TransferError>,
)
    requires
        transfer is Err,
    ensures
        investment_result(accounts, amount, derived, transfer) is Err,
        admission(accounts, derived) is Ok ==> investment_result(accounts, amount, derived, transfer) == Err::<
            InvestView,
            LedgerError,
        >(LedgerError::TransferFailed),
        admission(accounts, derived) is Err ==> investment_result(accounts, amount, derived, transfer) == Err::<
            InvestView,
            LedgerError,
        >(admission(accounts, derived)->Err_0),
{
}

/// Where the account supplied holds a record and the investor signed, but
/// the account is not the one at the address derived from the record's
/// title and creator, the investment is refused with `InvalidAccount`,
/// whatever the host reported.
pub proof fn lemma_substituted_account_refused(
    accounts: InvestView,
    amount: u64,
    program: Identity,
    transfer: Result<(), TransferError>,
)
    requires
        accounts.project is Some,
        accounts.user_signed,
        expected_address(accounts, program) is None || expected_address(accounts, program)->Some_0.address
            != accounts.project_key,
    ensures
        investment_result(accounts, amount, expected_address(accounts, program), transfer) == Err::<
            InvestView,
            LedgerError,
        >(LedgerError::InvalidAccount),
{
}

} // verus!
