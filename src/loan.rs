//! The loan engine: amortisation schedule, repayment matching, default
//! detection and collateral liquidation for one loan.
//!
//! Two policy choices are made here on purpose:
//! - A schedule charges `floor(total_due / installments)` per installment and
//!   the rounding residual is forgiven: a loan is settled once every scheduled
//!   amount has been collected (`total_repaid` reaches the schedule's sum).
//! - A repayment settles the first unpaid installment whose required amount it
//!   covers; the whole submitted amount goes to the lender, and only the
//!   installment's amount counts towards `total_repaid`.
//! A loan never enters a stored "defaulted" status: lateness is reported by
//! `is_overdue` and acted on only by an explicit liquidation.
use vstd::prelude::*;
use crate::account::AccountId;

verus! {

/// Basis points in one whole.
pub const BASIS_POINTS: i128 = 10000;

/// The life-cycle status of a loan. `Repaid` and `Liquidated` are terminal.
#[derive(Clone, Copy, Debug, PartialEq, Eq, Structural)]
pub enum LoanStatus {
    Active,
    Repaid,
    Liquidated,
}

/// One installment of a repayment schedule.
#[derive(Clone, Copy, Debug, PartialEq, Eq, Structural)]
pub struct Payment {
    pub due_date: u64,
    pub amount: i128,
    pub paid: bool,
}

/// Why an operation on a loan was refused. A refused operation changes nothing.
#[derive(Clone, Copy, Debug, PartialEq, Eq, Structural)]
pub enum LoanError {
    InvalidTerms,
    Unauthorized,
    LoanNotFound,
    LoanNotActive,
    InvalidRepayment,
    NoDefault,
}

/// A party to an asset movement: one of the loan's two accounts, or the
/// engine's own custody account.
#[derive(Clone, Copy, Debug, PartialEq, Eq, Structural)]
pub enum Party {
    Lender,
    Borrower,
    Custody,
}

/// An asset movement, in the loan's asset, that the host must perform for an
/// operation to take effect.
#[derive(Clone, Copy, Debug, PartialEq, Eq, Structural)]
pub struct Transfer {
    pub from: Party,
    pub to: Party,
    pub amount: i128,
}

/// `principal` plus `interest_rate` basis points of it, rounded down.
pub open spec fn total_due(principal: int, interest_rate: int) -> int {
    principal + principal * interest_rate / 10000
}

/// The amount charged by each installment.
pub open spec fn installment_amount(principal: int, interest_rate: int, installments: int) -> int {
    total_due(principal, interest_rate) / installments
}

/// The time between two installments.
pub open spec fn installment_interval(duration: int, installments: int) -> int {
    duration / installments
}

/// The schedule of a loan created at `created_at`: `installments` unpaid
/// entries, the `i`-th due `interval * (i + 1)` after creation.
pub open spec fn schedule_of(
    principal: int,
    interest_rate: int,
    duration: int,
    installments: int,
    created_at: int,
) -> Seq<Payment> {
    Seq::new(
        installments as nat,
        |i: int|
            Payment {
                due_date: (created_at + installment_interval(duration, installments) * (i + 1)) as u64,
                amount: installment_amount(principal, interest_rate, installments) as i128,
                paid: false,
            },
    )
}

/// Terms that give a schedule: positive principal, duration and count, every
/// installment charging a positive amount, and every figure representable.
pub open spec fn schedule_terms_valid(
    principal: int,
    interest_rate: int,
    duration: int,
    installments: int,
    created_at: int,
) -> bool {
    &&& principal > 0
    &&& duration > 0
    &&& installments > 0
    &&& principal * interest_rate <= i128::MAX
    &&& total_due(principal, interest_rate) <= i128::MAX
    &&& installment_amount(principal, interest_rate, installments) > 0
    &&& created_at + installment_interval(duration, installments) * installments <= u64::MAX
}

/// The sum of the amounts of a schedule.
pub open spec fn amount_sum(s: Seq<Payment>) -> int
    decreases s.len(),
{
    if s.len() == 0 {
        0
    } else {
        amount_sum(s.drop_last()) + s.last().amount
    }
}

/// The sum of the amounts of the paid entries of a schedule.
pub open spec fn paid_sum(s: Seq<Payment>) -> int
    decreases s.len(),
{
    if s.len() == 0 {
        0
    } else {
        paid_sum(s.drop_last()) + if s.last().paid {
            s.last().amount as int
        } else {
            0
        }
    }
}

pub open spec fn all_paid(s: Seq<Payment>) -> bool {
    forall|i: int| 0 <= i < s.len() ==> #[trigger] s[i].paid
}

pub open spec fn amounts_positive(s: Seq<Payment>) -> bool {
    forall|i: int| 0 <= i < s.len() ==> #[trigger] s[i].amount > 0
}

proof fn lemma_paid_sum_bounds(s: Seq<Payment>)
    requires
        amounts_positive(s),
    ensures
        0 <= paid_sum(s) <= amount_sum(s),
        paid_sum(s) == amount_sum(s) <==> all_paid(s),
        amount_sum(s) >= s.len(),
    decreases s.len(),
{
    if s.len() > 0 {
        let t = s.drop_last();
        assert(amounts_positive(t)) by {
            assert forall|i: int| 0 <= i < t.len() implies #[trigger] t[i].amount > 0 by {
                assert(t[i] == s[i]);
            }
        }
        lemma_paid_sum_bounds(t);
        assert(s.last().amount > 0) by {
            assert(s[s.len() - 1].amount > 0);
        }
        if all_paid(s) {
            assert forall|i: int| 0 <= i < t.len() implies #[trigger] t[i].paid by {
                assert(t[i] == s[i]);
            }
            assert(s[s.len() - 1].paid);
        }
        if paid_sum(s) == amount_sum(s) {
            assert forall|i: int| 0 <= i < s.len() implies #[trigger] s[i].paid by {
                if i < t.len() {
                    assert(t[i] == s[i]);
                }
            }
        }
    }
}

proof fn lemma_mark_paid(s: Seq<Payment>, i: int)
    requires
        0 <= i < s.len(),
        !s[i].paid,
    ensures
        paid_sum(s.update(i, Payment { paid: true, ..s[i] })) == paid_sum(s) + s[i].amount,
        amount_sum(s.update(i, Payment { paid: true, ..s[i] })) == amount_sum(s),
    decreases s.len(),
{
    let u = s.update(i, Payment { paid: true, ..s[i] });
    if i == s.len() - 1 {
        assert(u.drop_last() =~= s.drop_last());
    } else {
        lemma_mark_paid(s.drop_last(), i);
        assert(u.drop_last() =~= s.drop_last().update(i, Payment { paid: true, ..s[i] }));
    }
}

proof fn lemma_prefix_sum(s: Seq<Payment>, i: int)
    requires
        amounts_positive(s),
        0 <= i <= s.len(),
    ensures
        amount_sum(s.take(i)) <= amount_sum(s),
    decreases s.len() - i,
{
    if i < s.len() {
        lemma_prefix_sum(s, i + 1);
        assert(s.take(i + 1).drop_last() =~= s.take(i));
        assert(s[i].amount > 0);
    } else {
        assert(s.take(i) =~= s);
    }
}

proof fn lemma_uniform_sums(s: Seq<Payment>, amount: int)
    requires
        forall|i: int| 0 <= i < s.len() ==> #[trigger] s[i].amount == amount && !s[i].paid,
    ensures
        amount_sum(s) == amount * s.len(),
        paid_sum(s) == 0,
    decreases s.len(),
{
    if s.len() > 0 {
        let t = s.drop_last();
        assert forall|i: int| 0 <= i < t.len() implies #[trigger] t[i].amount == amount && !t[i].paid by {
            assert(t[i] == s[i]);
        }
        lemma_uniform_sums(t, amount);
        assert(s[s.len() - 1].amount == amount);
        assert(amount * s.len() == amount * t.len() + amount) by (nonlinear_arith)
            requires
                s.len() == t.len() + 1,
        ;
    }
}

/// The schedule's entries have positive amounts, and their sum fits in
/// `i128`.
pub proof fn lemma_schedule_of_sums(
    principal: int,
    interest_rate: int,
    duration: int,
    installments: int,
    created_at: int,
)
    requires
        schedule_terms_valid(principal, interest_rate, duration, installments, created_at),
    ensures
        amounts_positive(schedule_of(principal, interest_rate, duration, installments, created_at)),
        amount_sum(schedule_of(principal, interest_rate, duration, installments, created_at))
            == installment_amount(principal, interest_rate, installments) * installments,
        amount_sum(schedule_of(principal, interest_rate, duration, installments, created_at))
            <= total_due(principal, interest_rate),
        paid_sum(schedule_of(principal, interest_rate, duration, installments, created_at)) == 0,
{
    let s = schedule_of(principal, interest_rate, duration, installments, created_at);
    let per = installment_amount(principal, interest_rate, installments);
    let td = total_due(principal, interest_rate);
    assert forall|i: int| 0 <= i < s.len() implies #[trigger] s[i].amount == per && !s[i].paid by {
        assert(per <= td) by (nonlinear_arith)
            requires
                per == td / installments,
                installments > 0,
                per > 0,
        ;
    }
    lemma_uniform_sums(s, per);
    assert(per * installments <= td) by (nonlinear_arith)
        requires
            per == td / installments,
            installments > 0,
    ;
}

/// Builds the repayment schedule for the given terms, or refuses them with
/// `InvalidTerms`.
pub fn generate_schedule(
    principal: i128,
    interest_rate: u32,
    duration: u64,
    installments: u32,
    created_at: u64,
) -> (r: Result<Vec<Payment>, LoanError>)
    ensures
        r is Ok <==> schedule_terms_valid(
            principal as int,
            interest_rate as int,
            duration as int,
            installments as int,
            created_at as int,
        ),
        r is Err ==> r == Err::<Vec<Payment>, LoanError>(LoanError::InvalidTerms),
        r is Ok ==> r->Ok_0@ == schedule_of(
            principal as int,
            interest_rate as int,
            duration as int,
            installments as int,
            created_at as int,
        ),
        r is Ok ==> r->Ok_0@.len() == installments,
        r is Ok ==> forall|i: int|
            0 <= i < installments ==> (#[trigger] r->Ok_0@[i]).amount == installment_amount(
                principal as int,
                interest_rate as int,
                installments as int,
            ) && !r->Ok_0@[i].paid,
        r is Ok && duration / (installments as u64) > 0 ==> forall|i: int, j: int|
            0 <= i < j < installments ==> (#[trigger] r->Ok_0@[i]).due_date
                < (#[trigger] r->Ok_0@[j]).due_date,
{
    if principal <= 0 || duration == 0 || installments == 0 {
        return Err(LoanError::InvalidTerms);
    }
    let interest = match principal.checked_mul(interest_rate as i128) {
        Some(v) => v / BASIS_POINTS,
        None => {
            return Err(LoanError::InvalidTerms);
        },
    };
    let due = match principal.checked_add(interest) {
        Some(v) => v,
        None => {
            return Err(LoanError::InvalidTerms);
        },
    };
    let per = due / (installments as i128);
    if per <= 0 {
        return Err(LoanError::InvalidTerms);
    }
    let interval = duration / (installments as u64);
    assert(interval * installments <= duration) by (nonlinear_arith)
        requires
            interval == duration as int / installments as int,
            installments > 0,
    ;
    let span = interval * (installments as u64);
    if created_at as u128 + span as u128 > u64::MAX as u128 {
        return Err(LoanError::InvalidTerms);
    }
    let ghost spec_schedule = schedule_of(
        principal as int,
        interest_rate as int,
        duration as int,
        installments as int,
        created_at as int,
    );
    let mut schedule: Vec<Payment> = Vec::new();
    let mut i: u32 = 0;
    let mut due_date: u64 = created_at;
    while i < installments
        invariant
            0 < installments,
            i <= installments,
            interval == duration as int / installments as int,
            per == installment_amount(principal as int, interest_rate as int, installments as int),
            created_at + interval * installments <= u64::MAX,
            due_date == created_at + interval * i,
            spec_schedule == schedule_of(
                principal as int,
                interest_rate as int,
                duration as int,
                installments as int,
                created_at as int,
            ),
            schedule@ == spec_schedule.take(i as int),
        decreases installments - i,
    {
        assert(interval * (i + 1) <= interval * installments) by (nonlinear_arith)
            requires
                i + 1 <= installments,
                interval >= 0,
        ;
        assert(interval * (i + 1) == interval * i + interval) by (nonlinear_arith);
        due_date = due_date + interval;
        schedule.push(Payment { due_date, amount: per, paid: false });
        i = i + 1;
        assert(schedule@ =~= spec_schedule.take(i as int));
    }
    assert(schedule@ =~= spec_schedule);
    proof {
        if interval > 0 {
            assert forall|a: int, b: int| 0 <= a < b < installments implies
                (#[trigger] spec_schedule[a]).due_date < (#[trigger] spec_schedule[b]).due_date by {
                assert(interval * (a + 1) < interval * (b + 1)) by (nonlinear_arith)
                    requires
                        a < b,
                        interval > 0,
                ;
                assert(interval * (b + 1) <= interval * installments) by (nonlinear_arith)
                    requires
                        b + 1 <= installments,
                        interval > 0,
                ;
            }
        }
    }
    Ok(schedule)
}

/// The terms a lender and a borrower agree on when a loan is opened.
#[derive(Debug)]
pub struct LoanTerms {
    pub principal: i128,
    /// Interest in basis points of the principal.
    pub interest_rate: u32,
    /// Seconds from creation to the last installment.
    pub duration: u64,
    pub collateral_amount: i128,
    /// The asset that the collateral, the principal and the repayments move in.
    pub collateral_asset: AccountId,
    pub installments: u32,
}

/// One loan, as it is stored.
#[derive(Debug)]
pub struct LoanState {
    pub lender: AccountId,
    pub borrower: AccountId,
    pub principal: i128,
    pub interest_rate: u32,
    pub duration: u64,
    pub collateral_amount: i128,
    pub collateral_asset: AccountId,
    pub repayment_schedule: Vec<Payment>,
    pub status: LoanStatus,
    pub created_at: u64,
    pub total_repaid: i128,
}

/// The mathematical value of a stored loan.
pub struct LoanModel {
    pub lender: Seq<u8>,
    pub borrower: Seq<u8>,
    pub principal: int,
    pub interest_rate: int,
    pub duration: int,
    pub collateral_amount: int,
    pub collateral_asset: Seq<u8>,
    pub schedule: Seq<Payment>,
    pub status: LoanStatus,
    pub created_at: int,
    pub total_repaid: int,
}

impl View for LoanState {
    type V = LoanModel;

    open spec fn view(&self) -> LoanModel {
        LoanModel {
            lender: self.lender@,
            borrower: self.borrower@,
            principal: self.principal as int,
            interest_rate: self.interest_rate as int,
            duration: self.duration as int,
            collateral_amount: self.collateral_amount as int,
            collateral_asset: self.collateral_asset@,
            schedule: self.repayment_schedule@,
            status: self.status,
            created_at: self.created_at as int,
            total_repaid: self.total_repaid as int,
        }
    }
}

impl LoanModel {
    /// A loan's invariant: a non-empty schedule of positive amounts whose sum
    /// fits in `i128`, positive collateral, and `total_repaid` equal to the
    /// amounts of the paid installments.
    pub open spec fn wf(self) -> bool {
        &&& self.schedule.len() > 0
        &&& amounts_positive(self.schedule)
        &&& amount_sum(self.schedule) <= i128::MAX
        &&& self.collateral_amount > 0
        &&& self.total_repaid == paid_sum(self.schedule)
    }

    /// The amount at which the loan is settled.
    pub open spec fn scheduled_total(self) -> int {
        amount_sum(self.schedule)
    }
}

/// What an operation hands back: the loan's status after it, and the asset
/// movements the host must perform.
#[derive(Debug)]
pub struct Settlement {
    pub status: LoanStatus,
    pub transfers: Vec<Transfer>,
}

/// Whether an installment can be settled by a payment of `amount`.
pub open spec fn eligible(p: Payment, amount: int) -> bool {
    !p.paid && p.amount <= amount
}

/// Whether `i` is the first installment that a payment of `amount` settles.
pub open spec fn first_eligible(s: Seq<Payment>, amount: int, i: int) -> bool {
    &&& 0 <= i < s.len()
    &&& eligible(s[i], amount)
    &&& forall|j: int| 0 <= j < i ==> !eligible(#[trigger] s[j], amount)
}

/// Whether some unpaid installment's due date lies before `now`.
pub open spec fn overdue_at(s: Seq<Payment>, now: int) -> bool {
    exists|i: int| 0 <= i < s.len() && !s[i].paid && now > (#[trigger] s[i]).due_date
}

/// Whether a loan is in default at `now`.
pub open spec fn in_default(m: LoanModel, now: int) -> bool {
    m.status == LoanStatus::Active && overdue_at(m.schedule, now)
}

/// Terms that open a loan at `now`.
pub open spec fn loan_terms_valid(terms: LoanTerms, now: int) -> bool {
    &&& schedule_terms_valid(
        terms.principal as int,
        terms.interest_rate as int,
        terms.duration as int,
        terms.installments as int,
        now,
    )
    &&& terms.collateral_amount > 0
}

/// The loan that the given terms open at `now`.
pub open spec fn opened_loan(lender: Seq<u8>, borrower: Seq<u8>, terms: LoanTerms, now: int) -> LoanModel {
    LoanModel {
        lender,
        borrower,
        principal: terms.principal as int,
        interest_rate: terms.interest_rate as int,
        duration: terms.duration as int,
        collateral_amount: terms.collateral_amount as int,
        collateral_asset: terms.collateral_asset@,
        schedule: schedule_of(
            terms.principal as int,
            terms.interest_rate as int,
            terms.duration as int,
            terms.installments as int,
            now,
        ),
        status: LoanStatus::Active,
        created_at: now,
        total_repaid: 0,
    }
}

/// Opening a loan locks the collateral in custody and pays the principal out.
pub open spec fn opening_transfers(terms: LoanTerms) -> Seq<Transfer> {
    seq![
        Transfer { from: Party::Borrower, to: Party::Custody, amount: terms.collateral_amount },
        Transfer { from: Party::Lender, to: Party::Borrower, amount: terms.principal },
    ]
}

/// The result of a repayment of `amount` by `caller`: the loan after it and
/// the movements it makes, or the error that refuses it.
pub open spec fn repay_outcome(m: LoanModel, caller: Seq<u8>, amount: i128) -> Result<
    (LoanModel, Seq<Transfer>),
    LoanError,
> {
    if m.status != LoanStatus::Active {
        Err(LoanError::LoanNotActive)
    } else if caller != m.borrower {
        Err(LoanError::Unauthorized)
    } else if !exists|i: int| first_eligible(m.schedule, amount as int, i) {
        Err(LoanError::InvalidRepayment)
    } else {
        let i = choose|i: int| first_eligible(m.schedule, amount as int, i);
        let schedule = m.schedule.update(i, Payment { paid: true, ..m.schedule[i] });
        let total_repaid = m.total_repaid + m.schedule[i].amount;
        let settled = total_repaid >= m.scheduled_total();
        let payment = Transfer { from: Party::Borrower, to: Party::Lender, amount };
        let release = Transfer {
            from: Party::Custody,
            to: Party::Borrower,
            amount: m.collateral_amount as i128,
        };
        Ok(
            (
                LoanModel {
                    schedule,
                    total_repaid,
                    status: if settled {
                        LoanStatus::Repaid
                    } else {
                        LoanStatus::Active
                    },
                    ..m
                },
                if settled {
                    seq![payment, release]
                } else {
                    seq![payment]
                },
            ),
        )
    }
}

/// The result of a liquidation requested by `caller` at `now`.
pub open spec fn liquidate_outcome(m: LoanModel, caller: Seq<u8>, now: int) -> Result<
    (LoanModel, Seq<Transfer>),
    LoanError,
> {
    if m.status != LoanStatus::Active {
        Err(LoanError::LoanNotActive)
    } else if caller != m.lender {
        Err(LoanError::Unauthorized)
    } else if !overdue_at(m.schedule, now) {
        Err(LoanError::NoDefault)
    } else {
        Ok(
            (
                LoanModel { status: LoanStatus::Liquidated, ..m },
                seq![
                    Transfer {
                        from: Party::Custody,
                        to: Party::Lender,
                        amount: m.collateral_amount as i128,
                    },
                ],
            ),
        )
    }
}

/// `r` reports `expected` for a loan that went from `pre` to `post`: on
/// success `post` and the movements are the expected ones, on failure the
/// loan is unchanged.
pub open spec fn reports(
    r: Result<Settlement, LoanError>,
    pre: LoanModel,
    post: LoanModel,
    expected: Result<(LoanModel, Seq<Transfer>), LoanError>,
) -> bool {
    match expected {
        Ok((m, t)) => r is Ok && post == m && r->Ok_0.status == m.status && r->Ok_0.transfers@ == t,
        Err(e) => r == Err::<Settlement, LoanError>(e) && post == pre,
    }
}

proof fn lemma_first_eligible_unique(s: Seq<Payment>, amount: int, i: int, j: int)
    requires
        first_eligible(s, amount, i),
        first_eligible(s, amount, j),
    ensures
        i == j,
{
    if i < j {
        assert(!eligible(s[i], amount));
    } else if j < i {
        assert(!eligible(s[j], amount));
    }
}

impl LoanState {
    /// Opens a loan between `lender` and `borrower` at `now`.
    pub fn open(lender: &AccountId, borrower: &AccountId, terms: &LoanTerms, now: u64) -> (r: Result<
        (LoanState, Vec<Transfer>),
        LoanError,
    >)
        ensures
            r is Ok <==> loan_terms_valid(*terms, now as int),
            r is Err ==> r == Err::<(LoanState, Vec<Transfer>), LoanError>(LoanError::InvalidTerms),
            r is Ok ==> r->Ok_0.0@ == opened_loan(lender@, borrower@, *terms, now as int),
            r is Ok ==> r->Ok_0.0@.wf(),
            r is Ok ==> r->Ok_0.1@ == opening_transfers(*terms),
    {
        if terms.collateral_amount <= 0 {
            return Err(LoanError::InvalidTerms);
        }
        let schedule = match generate_schedule(
            terms.principal,
            terms.interest_rate,
            terms.duration,
            terms.installments,
            now,
        ) {
            Ok(s) => s,
            Err(e) => {
                return Err(e);
            },
        };
        proof {
            lemma_schedule_of_sums(
                terms.principal as int,
                terms.interest_rate as int,
                terms.duration as int,
                terms.installments as int,
                now as int,
            );
        }
        let loan = LoanState {
            lender: lender.copy(),
            borrower: borrower.copy(),
            principal: terms.principal,
            interest_rate: terms.interest_rate,
            duration: terms.duration,
            collateral_amount: terms.collateral_amount,
            collateral_asset: terms.collateral_asset.copy(),
            repayment_schedule: schedule,
            status: LoanStatus::Active,
            created_at: now,
            total_repaid: 0,
        };
        let mut transfers: Vec<Transfer> = Vec::new();
        transfers.push(
            Transfer { from: Party::Borrower, to: Party::Custody, amount: terms.collateral_amount },
        );
        transfers.push(Transfer { from: Party::Lender, to: Party::Borrower, amount: terms.principal });
        assert(transfers@ =~= opening_transfers(*terms));
        Ok((loan, transfers))
    }

    /// Whether the record satisfies the loan invariant; a record read back
    /// from storage is checked with this before it is operated on.
    pub fn is_well_formed(&self) -> (r: bool)
        ensures
            r == self@.wf(),
    {
        let s = &self.repayment_schedule;
        if s.len() == 0 || self.collateral_amount <= 0 {
            return false;
        }
        let mut total: i128 = 0;
        let mut paid: i128 = 0;
        let mut i: usize = 0;
        while i < s.len()
            invariant
                s@ == self@.schedule,
                i <= s@.len(),
                amounts_positive(s@.take(i as int)),
                total == amount_sum(s@.take(i as int)),
                paid == paid_sum(s@.take(i as int)),
            decreases s@.len() - i,
        {
            let p = s[i];
            proof {
                assert(s@.take(i + 1).drop_last() =~= s@.take(i as int));
            }
            if p.amount <= 0 {
                assert(!amounts_positive(s@)) by {
                    assert(s@[i as int].amount <= 0);
                }
                return false;
            }
            total = match total.checked_add(p.amount) {
                Some(v) => v,
                None => {
                    proof {
                        if amounts_positive(s@) {
                            lemma_prefix_sum(s@, i + 1);
                        }
                    }
                    return false;
                },
            };
            proof {
                assert(amounts_positive(s@.take(i + 1))) by {
                    assert forall|k: int| 0 <= k < i + 1 implies #[trigger] s@.take(i + 1)[k].amount
                        > 0 by {
                        if k < i {
                            assert(s@.take(i as int)[k].amount > 0);
                        }
                    }
                }
                lemma_paid_sum_bounds(s@.take(i + 1));
            }
            if p.paid {
                paid = paid + p.amount;
            }
            i = i + 1;
        }
        proof {
            assert(s@.take(i as int) =~= s@);
        }
        self.total_repaid == paid
    }

    /// The sum of the schedule's amounts: what settles the loan.
    pub fn scheduled_total(&self) -> (r: i128)
        requires
            self@.wf(),
        ensures
            r == self@.scheduled_total(),
    {
        let s = &self.repayment_schedule;
        let mut total: i128 = 0;
        let mut i: usize = 0;
        while i < s.len()
            invariant
                self@.wf(),
                s@ == self@.schedule,
                i <= s@.len(),
                total == amount_sum(s@.take(i as int)),
            decreases s@.len() - i,
        {
            proof {
                lemma_prefix_sum(s@, i + 1);
                assert(s@.take(i + 1).drop_last() =~= s@.take(i as int));
                assert(s@[i as int].amount > 0);
            }
            total = total + s[i].amount;
            i = i + 1;
        }
        assert(s@.take(i as int) =~= s@);
        total
    }

    /// Applies a repayment of `amount` by `borrower`: settles the first unpaid
    /// installment whose amount `amount` covers, pays `amount` to the lender,
    /// and once the scheduled total is collected marks the loan repaid and
    /// releases the collateral to the borrower.
    pub fn make_repayment(&mut self, borrower: &AccountId, amount: i128) -> (r: Result<
        Settlement,
        LoanError,
    >)
        requires
            old(self)@.wf(),
        ensures
            final(self)@.wf(),
            reports(r, old(self)@, final(self)@, repay_outcome(old(self)@, borrower@, amount)),
    {
        if self.status != LoanStatus::Active {
            return Err(LoanError::LoanNotActive);
        }
        if !borrower.same_as(&self.borrower) {
            return Err(LoanError::Unauthorized);
        }
        let n = self.repayment_schedule.len();
        let mut i: usize = 0;
        while i < n
            invariant
                n == self.repayment_schedule@.len(),
                i <= n,
                forall|j: int| 0 <= j < i ==> !eligible(#[trigger] self.repayment_schedule@[j], amount as int),
            ensures
                i <= n,
                forall|j: int| 0 <= j < i ==> !eligible(#[trigger] self.repayment_schedule@[j], amount as int),
                i < n ==> eligible(self.repayment_schedule@[i as int], amount as int),
            decreases n - i,
        {
            let p = self.repayment_schedule[i];
            if !p.paid && p.amount <= amount {
                break;
            }
            i = i + 1;
        }
        if i == n {
            proof {
                assert forall|k: int| !first_eligible(self@.schedule, amount as int, k) by {
                    if 0 <= k < n {
                        assert(!eligible(self.repayment_schedule@[k], amount as int));
                    }
                }
            }
            return Err(LoanError::InvalidRepayment);
        }
        let ghost pre = self@;
        let total = self.scheduled_total();
        let p = self.repayment_schedule[i];
        proof {
            assert(first_eligible(pre.schedule, amount as int, i as int));
            let c = choose|k: int| first_eligible(pre.schedule, amount as int, k);
            lemma_first_eligible_unique(pre.schedule, amount as int, i as int, c);
            lemma_mark_paid(pre.schedule, i as int);
            let u = pre.schedule.update(i as int, Payment { paid: true, ..p });
            assert(amounts_positive(u)) by {
                assert forall|k: int| 0 <= k < u.len() implies #[trigger] u[k].amount > 0 by {
                    assert(pre.schedule[k].amount > 0);
                }
            }
            lemma_paid_sum_bounds(u);
        }
        self.repayment_schedule.set(i, Payment { paid: true, ..p });
        self.total_repaid = self.total_repaid + p.amount;
        let mut transfers: Vec<Transfer> = Vec::new();
        transfers.push(Transfer { from: Party::Borrower, to: Party::Lender, amount });
        if self.total_repaid >= total {
            self.status = LoanStatus::Repaid;
            transfers.push(
                Transfer { from: Party::Custody, to: Party::Borrower, amount: self.collateral_amount },
            );
        }
        proof {
            let expected = repay_outcome(pre, borrower@, amount);
            assert(self@.schedule =~= expected->Ok_0.0.schedule);
            assert(transfers@ =~= expected->Ok_0.1);
        }
        Ok(Settlement { status: self.status, transfers })
    }

    /// Seizes the collateral for the lender when an installment is overdue at
    /// `now`, and marks the loan liquidated.
    pub fn liquidate_collateral(&mut self, lender: &AccountId, now: u64) -> (r: Result<
        Settlement,
        LoanError,
    >)
        requires
            old(self)@.wf(),
        ensures
            final(self)@.wf(),
            reports(r, old(self)@, final(self)@, liquidate_outcome(old(self)@, lender@, now as int)),
    {
        if self.status != LoanStatus::Active {
            return Err(LoanError::LoanNotActive);
        }
        if !lender.same_as(&self.lender) {
            return Err(LoanError::Unauthorized);
        }
        if !self.has_overdue_installment(now) {
            return Err(LoanError::NoDefault);
        }
        self.status = LoanStatus::Liquidated;
        let mut transfers: Vec<Transfer> = Vec::new();
        transfers.push(
            Transfer { from: Party::Custody, to: Party::Lender, amount: self.collateral_amount },
        );
        proof {
            let expected = liquidate_outcome(old(self)@, lender@, now as int);
            assert(transfers@ =~= expected->Ok_0.1);
        }
        Ok(Settlement { status: self.status, transfers })
    }

    /// Whether an unpaid installment is past its due date at `now`.
    pub fn has_overdue_installment(&self, now: u64) -> (r: bool)
        ensures
            r == overdue_at(self@.schedule, now as int),
    {
        let n = self.repayment_schedule.len();
        let mut i: usize = 0;
        while i < n
            invariant
                n == self.repayment_schedule@.len(),
                i <= n,
                forall|j: int|
                    0 <= j < i ==> !(!self.repayment_schedule@[j].paid && now
                        > (#[trigger] self.repayment_schedule@[j]).due_date),
            decreases n - i,
        {
            let p = self.repayment_schedule[i];
            if !p.paid && now > p.due_date {
                return true;
            }
            i = i + 1;
        }
        false
    }

    /// Whether the loan is active and in default at `now`; terminal loans are
    /// never overdue.
    pub fn is_overdue(&self, now: u64) -> (r: bool)
        ensures
            r == in_default(self@, now as int),
    {
        if self.status != LoanStatus::Active {
            return false;
        }
        self.has_overdue_installment(now)
    }
}

/// A loan asked for with no installments is refused: its terms are invalid,
/// so creation fails with `InvalidTerms` and allocates no identifier.
pub proof fn lemma_zero_installments_refused(terms: LoanTerms, now: int)
    requires
        terms.installments == 0,
    ensures
        !loan_terms_valid(terms, now),
{
}

/// A repayment by the borrower of an active loan that is smaller than every
/// unpaid installment is refused with `InvalidRepayment`, and so changes
/// neither `total_repaid` nor any installment.
pub proof fn lemma_underpayment_refused(m: LoanModel, caller: Seq<u8>, amount: i128)
    requires
        m.status == LoanStatus::Active,
        caller == m.borrower,
        forall|i: int| 0 <= i < m.schedule.len() && !m.schedule[i].paid ==> amount < (
        #[trigger] m.schedule[i]).amount,
    ensures
        repay_outcome(m, caller, amount) == Err::<(LoanModel, Seq<Transfer>), LoanError>(
            LoanError::InvalidRepayment,
        ),
{
    assert forall|i: int| !first_eligible(m.schedule, amount as int, i) by {
        if 0 <= i < m.schedule.len() {
            assert(!eligible(m.schedule[i], amount as int));
        }
    }
}

/// An accepted repayment settles exactly one installment and credits its
/// amount; the loan turns `Repaid` on the call after which the collected sum
/// equals the scheduled total, that is when every installment is paid, and
/// that same call releases the whole collateral to the borrower. Before that
/// call the loan stays `Active` and only the payment moves.
pub proof fn lemma_repayment_settles_on_completion(m: LoanModel, caller: Seq<u8>, amount: i128)
    requires
        m.wf(),
        repay_outcome(m, caller, amount) is Ok,
    ensures
        ({
            let (post, moves) = repay_outcome(m, caller, amount)->Ok_0;
            &&& post.wf()
            &&& m.status == LoanStatus::Active
            &&& exists|i: int|
                first_eligible(m.schedule, amount as int, i) && post.schedule == m.schedule.update(
                    i,
                    Payment { paid: true, ..m.schedule[i] },
                ) && post.total_repaid == m.total_repaid + m.schedule[i].amount
            &&& post.scheduled_total() == m.scheduled_total()
            &&& post.total_repaid <= post.scheduled_total()
            &&& (post.status == LoanStatus::Repaid) == (post.total_repaid == post.scheduled_total())
            &&& (post.status == LoanStatus::Repaid) == all_paid(post.schedule)
            &&& post.status == LoanStatus::Repaid ==> moves == seq![
                Transfer { from: Party::Borrower, to: Party::Lender, amount },
                Transfer {
                    from: Party::Custody,
                    to: Party::Borrower,
                    amount: m.collateral_amount as i128,
                },
            ]
            &&& post.status != LoanStatus::Repaid ==> post.status == LoanStatus::Active && moves
                == seq![Transfer { from: Party::Borrower, to: Party::Lender, amount }]
        }),
{
    let i = choose|i: int| first_eligible(m.schedule, amount as int, i);
    let u = m.schedule.update(i, Payment { paid: true, ..m.schedule[i] });
    lemma_mark_paid(m.schedule, i);
    assert(amounts_positive(u)) by {
        assert forall|k: int| 0 <= k < u.len() implies #[trigger] u[k].amount > 0 by {
            assert(m.schedule[k].amount > 0);
        }
    }
    lemma_paid_sum_bounds(u);
}

/// Liquidation by the lender of an active loan is refused with `NoDefault`
/// while no installment is past its due date, and succeeds once an unpaid
/// installment is past it: the loan turns `Liquidated` and the whole
/// collateral moves from custody to the lender.
pub proof fn lemma_liquidation_needs_default(m: LoanModel, caller: Seq<u8>, now: int)
    requires
        m.status == LoanStatus::Active,
        caller == m.lender,
    ensures
        (forall|i: int| 0 <= i < m.schedule.len() ==> now <= (#[trigger] m.schedule[i]).due_date)
            ==> liquidate_outcome(m, caller, now) == Err::<(LoanModel, Seq<Transfer>), LoanError>(
            LoanError::NoDefault,
        ),
        (exists|i: int| 0 <= i < m.schedule.len() && !m.schedule[i].paid && now > (
        #[trigger] m.schedule[i]).due_date) ==> liquidate_outcome(m, caller, now) == Ok::<
            (LoanModel, Seq<Transfer>),
            LoanError,
        >(
            (
                LoanModel { status: LoanStatus::Liquidated, ..m },
                seq![
                    Transfer {
                        from: Party::Custody,
                        to: Party::Lender,
                        amount: m.collateral_amount as i128,
                    },
                ],
            ),
        ),
{
}

/// A repaid or liquidated loan refuses every further repayment and
/// liquidation with `LoanNotActive`, whoever asks and whenever.
pub proof fn lemma_terminal_loans_refuse(m: LoanModel, caller: Seq<u8>, amount: i128, now: int)
    requires
        m.status == LoanStatus::Repaid || m.status == LoanStatus::Liquidated,
    ensures
        repay_outcome(m, caller, amount) == Err::<(LoanModel, Seq<Transfer>), LoanError>(
            LoanError::LoanNotActive,
        ),
        liquidate_outcome(m, caller, now) == Err::<(LoanModel, Seq<Transfer>), LoanError>(
            LoanError::LoanNotActive,
        ),
        !in_default(m, now),
{
}

} // verus!
