//! The loan record store: every loan ever opened, under the identifier it was
//! given. Identifiers are allocated in order from zero, one per successful
//! creation, and never reused; records are never removed.
use vstd::prelude::*;
use crate::account::AccountId;
use crate::loan::{
    in_default, liquidate_outcome, loan_terms_valid, opened_loan, opening_transfers, repay_outcome,
    reports, LoanError, LoanModel, LoanState, LoanStatus, LoanTerms, Settlement, Transfer,
};

verus! {

/// The loans of one engine, the `i`-th under identifier `i`.
pub struct LoanContract {
    loans: Vec<LoanState>,
}

impl View for LoanContract {
    type V = Seq<LoanModel>;

    closed spec fn view(&self) -> Seq<LoanModel> {
        self.loans@.map_values(|l: LoanState| l@)
    }
}

impl LoanContract {
    pub open spec fn wf(&self) -> bool {
        forall|i: int| 0 <= i < self@.len() ==> (#[trigger] self@[i]).wf()
    }

    pub fn new() -> (r: LoanContract)
        ensures
            r@ == Seq::<LoanModel>::empty(),
            r.wf(),
    {
        let r = LoanContract { loans: Vec::new() };
        assert(r@ =~= Seq::<LoanModel>::empty());
        r
    }

    /// The number of loans opened so far, which is also the next identifier.
    pub fn loan_count(&self) -> (r: u64)
        requires
            self@.len() <= u64::MAX,
        ensures
            r == self@.len(),
    {
        self.loans.len() as u64
    }

    /// Opens a loan at `now` and returns its identifier with the movements
    /// that lock the collateral and pay out the principal. Refused terms
    /// allocate no identifier.
    pub fn create_loan(
        &mut self,
        lender: &AccountId,
        borrower: &AccountId,
        terms: &LoanTerms,
        now: u64,
    ) -> (r: Result<(u64, Vec<Transfer>), LoanError>)
        requires
            old(self).wf(),
            old(self)@.len() < u64::MAX,
        ensures
            final(self).wf(),
            r is Ok <==> loan_terms_valid(*terms, now as int),
            r is Err ==> r == Err::<(u64, Vec<Transfer>), LoanError>(LoanError::InvalidTerms)
                && final(self)@ == old(self)@,
            r is Ok ==> r->Ok_0.0 == old(self)@.len() && final(self)@ == old(self)@.push(
                opened_loan(lender@, borrower@, *terms, now as int),
            ) && r->Ok_0.1@ == opening_transfers(*terms),
    {
        match LoanState::open(lender, borrower, terms, now) {
            Ok((loan, transfers)) => {
                let id = self.loans.len() as u64;
                self.loans.push(loan);
                assert(self@ =~= old(self)@.push(opened_loan(lender@, borrower@, *terms, now as int)));
                assert(self@[self@.len() - 1].wf());
                Ok((id, transfers))
            },
            Err(e) => Err(e),
        }
    }

    /// Applies a repayment to loan `loan_id`; see `LoanState::make_repayment`.
    pub fn make_repayment(&mut self, loan_id: u64, borrower: &AccountId, amount: i128) -> (r: Result<
        Settlement,
        LoanError,
    >)
        requires
            old(self).wf(),
        ensures
            final(self).wf(),
            loan_id >= old(self)@.len() ==> r == Err::<Settlement, LoanError>(LoanError::LoanNotFound)
                && final(self)@ == old(self)@,
            loan_id < old(self)@.len() ==> final(self)@ == old(self)@.update(
                loan_id as int,
                final(self)@[loan_id as int],
            ) && reports(
                r,
                old(self)@[loan_id as int],
                final(self)@[loan_id as int],
                repay_outcome(old(self)@[loan_id as int], borrower@, amount),
            ),
    {
        if loan_id as usize >= self.loans.len() || loan_id > usize::MAX as u64 {
            return Err(LoanError::LoanNotFound);
        }
        let idx = loan_id as usize;
        assert(self@[idx as int] == self.loans@[idx as int]@);
        let r = self.loans[idx].make_repayment(borrower, amount);
        assert(self@ =~= old(self)@.update(loan_id as int, self@[loan_id as int]));
        r
    }

    /// Liquidates loan `loan_id` at `now`; see `LoanState::liquidate_collateral`.
    pub fn liquidate_collateral(&mut self, loan_id: u64, lender: &AccountId, now: u64) -> (r: Result<
        Settlement,
        LoanError,
    >)
        requires
            old(self).wf(),
        ensures
            final(self).wf(),
            loan_id >= old(self)@.len() ==> r == Err::<Settlement, LoanError>(LoanError::LoanNotFound)
                && final(self)@ == old(self)@,
            loan_id < old(self)@.len() ==> final(self)@ == old(self)@.update(
                loan_id as int,
                final(self)@[loan_id as int],
            ) && reports(
                r,
                old(self)@[loan_id as int],
                final(self)@[loan_id as int],
                liquidate_outcome(old(self)@[loan_id as int], lender@, now as int),
            ),
    {
        if loan_id as usize >= self.loans.len() || loan_id > usize::MAX as u64 {
            return Err(LoanError::LoanNotFound);
        }
        let idx = loan_id as usize;
        assert(self@[idx as int] == self.loans@[idx as int]@);
        let r = self.loans[idx].liquidate_collateral(lender, now);
        assert(self@ =~= old(self)@.update(loan_id as int, self@[loan_id as int]));
        r
    }

    /// The stored record of loan `loan_id`.
    pub fn get_loan(&self, loan_id: u64) -> (r: Result<&LoanState, LoanError>)
        ensures
            loan_id >= self@.len() ==> r == Err::<&LoanState, LoanError>(LoanError::LoanNotFound),
            loan_id < self@.len() ==> r is Ok && r->Ok_0@ == self@[loan_id as int],
    {
        if loan_id as usize >= self.loans.len() || loan_id > usize::MAX as u64 {
            return Err(LoanError::LoanNotFound);
        }
        Ok(&self.loans[loan_id as usize])
    }

    /// The status of loan `loan_id`.
    pub fn get_loan_status(&self, loan_id: u64) -> (r: Result<LoanStatus, LoanError>)
        ensures
            loan_id >= self@.len() ==> r == Err::<LoanStatus, LoanError>(LoanError::LoanNotFound),
            loan_id < self@.len() ==> r == Ok::<LoanStatus, LoanError>(self@[loan_id as int].status),
    {
        match self.get_loan(loan_id) {
            Ok(loan) => Ok(loan.status),
            Err(e) => Err(e),
        }
    }

    /// Whether loan `loan_id` is in default at `now`.
    pub fn is_overdue(&self, loan_id: u64, now: u64) -> (r: Result<bool, LoanError>)
        ensures
            loan_id >= self@.len() ==> r == Err::<bool, LoanError>(LoanError::LoanNotFound),
            loan_id < self@.len() ==> r == Ok::<bool, LoanError>(
                in_default(self@[loan_id as int], now as int),
            ),
    {
        match self.get_loan(loan_id) {
            Ok(loan) => Ok(loan.is_overdue(now)),
            Err(e) => Err(e),
        }
    }
}

} // verus!
