//! The durable records: one `Project` per campaign and the shared `State`
//! counter.

use vstd::prelude::*;
use crate::error::LedgerError;
use crate::identity::Identity;

verus! {

/// The shared record that counts the projects created.
#[derive(Clone, Copy, Debug, PartialEq, Eq)]
pub struct State {
    pub project_count: u64,
}

/// The record of one funding campaign.
#[derive(Clone, Debug, PartialEq, Eq)]
pub struct Project {
    pub title: String,
    pub description: String,
    pub target: u64,
    pub amount_collected: u64,
    pub investor_count: u64,
    pub creator: Identity,
    pub created_at: i64,
    pub investors: Vec<Identity>,
}

/// A project as a mathematical value: texts as character sequences, totals
/// as unbounded naturals, the roster as a sequence.
pub struct ProjectView {
    pub title: Seq<char>,
    pub description: Seq<char>,
    pub target: u64,
    pub amount_collected: nat,
    pub investor_count: nat,
    pub creator: Identity,
    pub created_at: i64,
    pub investors: Seq<Identity>,
}

impl ProjectView {
    /// The record as it is first written: nothing collected, nobody on the
    /// roster.
    pub open spec fn fresh(
        title: Seq<char>,
        description: Seq<char>,
        target: u64,
        creator: Identity,
        created_at: i64,
    ) -> ProjectView {
        ProjectView {
            title,
            description,
            target,
            amount_collected: 0,
            investor_count: 0,
            creator,
            created_at,
            investors: Seq::empty(),
        }
    }

    /// Nobody is on the roster twice, and the investor count is the roster's
    /// length.
    pub open spec fn wf(self) -> bool {
        &&& self.investors.no_duplicates()
        &&& self.investor_count == self.investors.len()
    }

    /// The record after `investor` has paid in `amount`: the total grows by
    /// `amount`; the investor joins the roster, and is counted, only if new.
    pub open spec fn invested(self, investor: Identity, amount: u64) -> ProjectView {
        if self.investors.contains(investor) {
            ProjectView { amount_collected: self.amount_collected + amount as nat, ..self }
        } else {
            ProjectView {
                amount_collected: self.amount_collected + amount as nat,
                investor_count: self.investor_count + 1,
                investors: self.investors.push(investor),
                ..self
            }
        }
    }

    /// Whether the record after such an investment still fits its 64-bit
    /// fields.
    pub open spec fn can_record(self, investor: Identity, amount: u64) -> bool {
        &&& self.amount_collected + amount <= u64::MAX
        &&& (self.investors.contains(investor) || self.investor_count + 1 <= u64::MAX)
    }
}

impl View for Project {
    type V = ProjectView;

    open spec fn view(&self) -> ProjectView {
        ProjectView {
            title: self.title@,
            description: self.description@,
            target: self.target,
            amount_collected: self.amount_collected as nat,
            investor_count: self.investor_count as nat,
            creator: self.creator,
            created_at: self.created_at,
            investors: self.investors@,
        }
    }
}

/// An investment keeps a well-formed record well-formed.
pub proof fn lemma_invested_wf(p: ProjectView, investor: Identity, amount: u64)
    requires
        p.wf(),
    ensures
        p.invested(investor, amount).wf(),
{
    if !p.investors.contains(investor) {
        let after = p.investors.push(investor);
        assert forall|i: int, j: int| 0 <= i < after.len() && 0 <= j < after.len() && i != j implies after[i] != after[j] by {
            if i < p.investors.len() && j < p.investors.len() {
            } else if i < p.investors.len() {
                assert(p.investors.contains(after[i]));
            } else {
                assert(p.investors.contains(after[j]));
            }
        }
    }
}

impl Project {
    /// Nobody is on the roster twice, and the investor count is the roster's
    /// length.
    pub open spec fn wf(&self) -> bool {
        self@.wf()
    }

    /// A record as it is first written.
    pub fn new(title: String, description: String, target: u64, creator: Identity, created_at: i64) -> (project: Project)
        ensures
            project@ == ProjectView::fresh(title@, description@, target, creator, created_at),
            project.wf(),
    {
        Project {
            title,
            description,
            target,
            amount_collected: 0,
            investor_count: 0,
            creator,
            created_at,
            investors: Vec::new(),
        }
    }

    /// Whether `who` is on the roster.
    pub fn has_investor(&self, who: &Identity) -> (found: bool)
        ensures
            found == self@.investors.contains(*who),
    {
        let mut i: usize = 0;
        while i < self.investors.len()
            invariant
                i <= self.investors.len(),
                forall|k: int| 0 <= k < i ==> self.investors@[k] != *who,
            decreases self.investors.len() - i,
        {
            if self.investors[i] == *who {
                return true;
            }
            i += 1;
        }
        false
    }

    /// Books an investment whose funds have arrived: adds `amount` to the
    /// total and puts a new investor on the roster. Where a field would
    /// overflow, the record is left as it was.
    pub fn record_investment(&mut self, investor: &Identity, amount: u64) -> (r: Result<(), LedgerError>)
        ensures
            r is Ok <==> old(self)@.can_record(*investor, amount),
            r is Ok ==> final(self)@ == old(self)@.invested(*investor, amount),
            r is Err ==> r == Err::<(), LedgerError>(LedgerError::ArithmeticOverflow) && *final(self) == *old(self),
            old(self).wf() ==> final(self).wf(),
    {
        let total: u64 = match self.amount_collected.checked_add(amount) {
            Some(total) => total,
            None => {
                return Err(LedgerError::ArithmeticOverflow);
            },
        };
        if !self.has_investor(investor) {
            let count: u64 = match self.investor_count.checked_add(1) {
                Some(count) => count,
                None => {
                    return Err(LedgerError::ArithmeticOverflow);
                },
            };
            self.investors.push(*investor);
            self.investor_count = count;
        }
        self.amount_collected = total;
        proof {
            if old(self).wf() {
                lemma_invested_wf(old(self)@, *investor, amount);
            }
        }
        Ok(())
    }
}

} // verus!
