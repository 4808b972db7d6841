//! The escrow-protected trade: a buyer's funds are held in custody until the
//! buyer confirms delivery and the payment is released to the seller, or
//! until a dispute or a missed delivery deadline refunds the buyer.
use vstd::prelude::*;
use crate::account::AccountId;

verus! {

/// The status of a trade. `Completed` and `Refunded` are terminal.
#[derive(Clone, Copy, Debug, PartialEq, Eq, Structural)]
pub enum EscrowStatus {
    Funded,
    Delivered,
    Completed,
    Disputed,
    Refunded,
}

/// Why an escrow operation was refused. A refused operation changes nothing.
#[derive(Clone, Copy, Debug, PartialEq, Eq, Structural)]
pub enum EscrowError {
    EscrowNotFound,
    Unauthorized,
    NotFunded,
    DeliveryNotConfirmed,
    CannotDispute,
    CannotRefund,
}

/// A party to an escrow movement.
#[derive(Clone, Copy, Debug, PartialEq, Eq, Structural)]
pub enum EscrowParty {
    Buyer,
    Seller,
    Custody,
}

/// A movement of the trade's asset that the host must perform.
#[derive(Clone, Copy, Debug, PartialEq, Eq, Structural)]
pub struct EscrowTransfer {
    pub from: EscrowParty,
    pub to: EscrowParty,
    pub amount: i128,
}

/// What an escrow operation hands back: the status after it and the movement
/// it makes, if any.
#[derive(Clone, Copy, Debug, PartialEq, Eq, Structural)]
pub struct EscrowStep {
    pub status: EscrowStatus,
    pub transfer: Option<EscrowTransfer>,
}

/// One trade, as it is stored.
#[derive(Debug)]
pub struct EscrowState {
    pub buyer: AccountId,
    pub seller: AccountId,
    pub amount: i128,
    pub asset: AccountId,
    pub delivery_deadline: u64,
    pub status: EscrowStatus,
    pub created_at: u64,
}

/// The mathematical value of a stored trade.
pub struct EscrowModel {
    pub buyer: Seq<u8>,
    pub seller: Seq<u8>,
    pub amount: int,
    pub asset: Seq<u8>,
    pub delivery_deadline: int,
    pub status: EscrowStatus,
    pub created_at: int,
}

impl View for EscrowState {
    type V = EscrowModel;

    open spec fn view(&self) -> EscrowModel {
        EscrowModel {
            buyer: self.buyer@,
            seller: self.seller@,
            amount: self.amount as int,
            asset: self.asset@,
            delivery_deadline: self.delivery_deadline as int,
            status: self.status,
            created_at: self.created_at as int,
        }
    }
}

pub type EscrowOutcome = Result<(EscrowModel, Option<EscrowTransfer>), EscrowError>;

/// The buyer confirms delivery of a funded trade.
pub open spec fn confirm_outcome(m: EscrowModel, caller: Seq<u8>) -> EscrowOutcome {
    if caller != m.buyer {
        Err(EscrowError::Unauthorized)
    } else if m.status != EscrowStatus::Funded {
        Err(EscrowError::NotFunded)
    } else {
        Ok((EscrowModel { status: EscrowStatus::Delivered, ..m }, None))
    }
}

/// A delivered trade pays the seller out of custody.
pub open spec fn release_outcome(m: EscrowModel) -> EscrowOutcome {
    if m.status != EscrowStatus::Delivered {
        Err(EscrowError::DeliveryNotConfirmed)
    } else {
        Ok(
            (
                EscrowModel { status: EscrowStatus::Completed, ..m },
                Some(
                    EscrowTransfer {
                        from: EscrowParty::Custody,
                        to: EscrowParty::Seller,
                        amount: m.amount as i128,
                    },
                ),
            ),
        )
    }
}

/// Either party disputes a trade that is funded or delivered.
pub open spec fn dispute_outcome(m: EscrowModel, caller: Seq<u8>) -> EscrowOutcome {
    if caller != m.buyer && caller != m.seller {
        Err(EscrowError::Unauthorized)
    } else if m.status != EscrowStatus::Funded && m.status != EscrowStatus::Delivered {
        Err(EscrowError::CannotDispute)
    } else {
        Ok((EscrowModel { status: EscrowStatus::Disputed, ..m }, None))
    }
}

/// A disputed trade, or a funded one whose deadline passed before `now`,
/// refunds the buyer out of custody.
pub open spec fn refund_outcome(m: EscrowModel, now: int) -> EscrowOutcome {
    if !(m.status == EscrowStatus::Disputed || (m.status == EscrowStatus::Funded && now
        > m.delivery_deadline)) {
        Err(EscrowError::CannotRefund)
    } else {
        Ok(
            (
                EscrowModel { status: EscrowStatus::Refunded, ..m },
                Some(
                    EscrowTransfer {
                        from: EscrowParty::Custody,
                        to: EscrowParty::Buyer,
                        amount: m.amount as i128,
                    },
                ),
            ),
        )
    }
}

/// `r` reports `expected` for a trade that went from `pre` to `post`.
pub open spec fn escrow_reports(
    r: Result<EscrowStep, EscrowError>,
    pre: EscrowModel,
    post: EscrowModel,
    expected: EscrowOutcome,
) -> bool {
    match expected {
        Ok((m, t)) => r == Ok::<EscrowStep, EscrowError>(EscrowStep { status: m.status, transfer: t })
            && post == m,
        Err(e) => r == Err::<EscrowStep, EscrowError>(e) && post == pre,
    }
}

/// A completed or refunded trade has paid out its custody: every further
/// confirmation, release, dispute and refund is refused.
pub proof fn lemma_settled_trades_are_final(m: EscrowModel, caller: Seq<u8>, now: int)
    requires
        m.status == EscrowStatus::Completed || m.status == EscrowStatus::Refunded,
    ensures
        confirm_outcome(m, caller) is Err,
        release_outcome(m) is Err,
        dispute_outcome(m, caller) is Err,
        refund_outcome(m, now) is Err,
{
}

impl EscrowState {
    pub fn confirm_delivery(&mut self, buyer: &AccountId) -> (r: Result<EscrowStep, EscrowError>)
        ensures
            escrow_reports(r, old(self)@, final(self)@, confirm_outcome(old(self)@, buyer@)),
    {
        if !buyer.same_as(&self.buyer) {
            return Err(EscrowError::Unauthorized);
        }
        if self.status != EscrowStatus::Funded {
            return Err(EscrowError::NotFunded);
        }
        self.status = EscrowStatus::Delivered;
        Ok(EscrowStep { status: self.status, transfer: None })
    }

    pub fn release_payment(&mut self) -> (r: Result<EscrowStep, EscrowError>)
        ensures
            escrow_reports(r, old(self)@, final(self)@, release_outcome(old(self)@)),
    {
        if self.status != EscrowStatus::Delivered {
            return Err(EscrowError::DeliveryNotConfirmed);
        }
        self.status = EscrowStatus::Completed;
        let transfer = EscrowTransfer {
            from: EscrowParty::Custody,
            to: EscrowParty::Seller,
            amount: self.amount,
        };
        Ok(EscrowStep { status: self.status, transfer: Some(transfer) })
    }

    pub fn dispute(&mut self, party: &AccountId) -> (r: Result<EscrowStep, EscrowError>)
        ensures
            escrow_reports(r, old(self)@, final(self)@, dispute_outcome(old(self)@, party@)),
    {
        if !party.same_as(&self.buyer) && !party.same_as(&self.seller) {
            return Err(EscrowError::Unauthorized);
        }
        if self.status != EscrowStatus::Funded && self.status != EscrowStatus::Delivered {
            return Err(EscrowError::CannotDispute);
        }
        self.status = EscrowStatus::Disputed;
        Ok(EscrowStep { status: self.status, transfer: None })
    }

    pub fn refund(&mut self, now: u64) -> (r: Result<EscrowStep, EscrowError>)
        ensures
            escrow_reports(r, old(self)@, final(self)@, refund_outcome(old(self)@, now as int)),
    {
        let can_refund = self.status == EscrowStatus::Disputed || (self.status
            == EscrowStatus::Funded && now > self.delivery_deadline);
        if !can_refund {
            return Err(EscrowError::CannotRefund);
        }
        self.status = EscrowStatus::Refunded;
        let transfer = EscrowTransfer {
            from: EscrowParty::Custody,
            to: EscrowParty::Buyer,
            amount: self.amount,
        };
        Ok(EscrowStep { status: self.status, transfer: Some(transfer) })
    }
}

/// The trades of one engine, the `i`-th under identifier `i`.
pub struct EscrowContract {
    escrows: Vec<EscrowState>,
}

impl View for EscrowContract {
    type V = Seq<EscrowModel>;

    closed spec fn view(&self) -> Seq<EscrowModel> {
        self.escrows@.map_values(|e: EscrowState| e@)
    }
}

impl EscrowContract {
    pub fn new() -> (r: EscrowContract)
        ensures
            r@ == Seq::<EscrowModel>::empty(),
    {
        let r = EscrowContract { escrows: Vec::new() };
        assert(r@ =~= Seq::<EscrowModel>::empty());
        r
    }

    /// Opens a funded trade at `now` and returns its identifier with the
    /// movement that locks the buyer's funds in custody.
    pub fn create_escrow(
        &mut self,
        buyer: &AccountId,
        seller: &AccountId,
        amount: i128,
        asset: &AccountId,
        delivery_deadline: u64,
        now: u64,
    ) -> (r: (u64, EscrowTransfer))
        requires
            old(self)@.len() < u64::MAX,
        ensures
            r.0 == old(self)@.len(),
            r.1 == (EscrowTransfer { from: EscrowParty::Buyer, to: EscrowParty::Custody, amount }),
            final(self)@ == old(self)@.push(
                EscrowModel {
                    buyer: buyer@,
                    seller: seller@,
                    amount: amount as int,
                    asset: asset@,
                    delivery_deadline: delivery_deadline as int,
                    status: EscrowStatus::Funded,
                    created_at: now as int,
                },
            ),
    {
        let id = self.escrows.len() as u64;
        self.escrows.push(
            EscrowState {
                buyer: buyer.copy(),
                seller: seller.copy(),
                amount,
                asset: asset.copy(),
                delivery_deadline,
                status: EscrowStatus::Funded,
                created_at: now,
            },
        );
        assert(self@ =~= old(self)@.push(self@[self@.len() - 1]));
        (id, EscrowTransfer { from: EscrowParty::Buyer, to: EscrowParty::Custody, amount })
    }

    /// The stored record of trade `escrow_id`.
    pub fn get_escrow(&self, escrow_id: u64) -> (r: Result<&EscrowState, EscrowError>)
        ensures
            escrow_id >= self@.len() ==> r == Err::<&EscrowState, EscrowError>(
                EscrowError::EscrowNotFound,
            ),
            escrow_id < self@.len() ==> r is Ok && r->Ok_0@ == self@[escrow_id as int],
    {
        if escrow_id as usize >= self.escrows.len() || escrow_id > usize::MAX as u64 {
            return Err(EscrowError::EscrowNotFound);
        }
        Ok(&self.escrows[escrow_id as usize])
    }

    pub fn confirm_delivery(&mut self, escrow_id: u64, buyer: &AccountId) -> (r: Result<
        EscrowStep,
        EscrowError,
    >)
        ensures
            escrow_id >= old(self)@.len() ==> r == Err::<EscrowStep, EscrowError>(
                EscrowError::EscrowNotFound,
            ) && final(self)@ == old(self)@,
            escrow_id < old(self)@.len() ==> final(self)@ == old(self)@.update(
                escrow_id as int,
                final(self)@[escrow_id as int],
            ) && escrow_reports(
                r,
                old(self)@[escrow_id as int],
                final(self)@[escrow_id as int],
                confirm_outcome(old(self)@[escrow_id as int], buyer@),
            ),
    {
        if escrow_id as usize >= self.escrows.len() || escrow_id > usize::MAX as u64 {
            return Err(EscrowError::EscrowNotFound);
        }
        let idx = escrow_id as usize;
        assert(self@[idx as int] == self.escrows@[idx as int]@);
        let r = self.escrows[idx].confirm_delivery(buyer);
        assert(self@ =~= old(self)@.update(escrow_id as int, self@[escrow_id as int]));
        r
    }

    pub fn release_payment(&mut self, escrow_id: u64) -> (r: Result<EscrowStep, EscrowError>)
        ensures
            escrow_id >= old(self)@.len() ==> r == Err::<EscrowStep, EscrowError>(
                EscrowError::EscrowNotFound,
            ) && final(self)@ == old(self)@,
            escrow_id < old(self)@.len() ==> final(self)@ == old(self)@.update(
                escrow_id as int,
                final(self)@[escrow_id as int],
            ) && escrow_reports(
                r,
                old(self)@[escrow_id as int],
                final(self)@[escrow_id as int],
                release_outcome(old(self)@[escrow_id as int]),
            ),
    {
        if escrow_id as usize >= self.escrows.len() || escrow_id > usize::MAX as u64 {
            return Err(EscrowError::EscrowNotFound);
        }
        let idx = escrow_id as usize;
        assert(self@[idx as int] == self.escrows@[idx as int]@);
        let r = self.escrows[idx].release_payment();
        assert(self@ =~= old(self)@.update(escrow_id as int, self@[escrow_id as int]));
        r
    }

    pub fn dispute(&mut self, escrow_id: u64, party: &AccountId) -> (r: Result<EscrowStep, EscrowError>)
        ensures
            escrow_id >= old(self)@.len() ==> r == Err::<EscrowStep, EscrowError>(
                EscrowError::EscrowNotFound,
            ) && final(self)@ == old(self)@,
            escrow_id < old(self)@.len() ==> final(self)@ == old(self)@.update(
                escrow_id as int,
                final(self)@[escrow_id as int],
            ) && escrow_reports(
                r,
                old(self)@[escrow_id as int],
                final(self)@[escrow_id as int],
                dispute_outcome(old(self)@[escrow_id as int], party@),
            ),
    {
        if escrow_id as usize >= self.escrows.len() || escrow_id > usize::MAX as u64 {
            return Err(EscrowError::EscrowNotFound);
        }
        let idx = escrow_id as usize;
        assert(self@[idx as int] == self.escrows@[idx as int]@);
        let r = self.escrows[idx].dispute(party);
        assert(self@ =~= old(self)@.update(escrow_id as int, self@[escrow_id as int]));
        r
    }

    pub fn refund(&mut self, escrow_id: u64, now: u64) -> (r: Result<EscrowStep, EscrowError>)
        ensures
            escrow_id >= old(self)@.len() ==> r == Err::<EscrowStep, EscrowError>(
                EscrowError::EscrowNotFound,
            ) && final(self)@ == old(self)@,
            escrow_id < old(self)@.len() ==> final(self)@ == old(self)@.update(
                escrow_id as int,
                final(self)@[escrow_id as int],
            ) && escrow_reports(
                r,
                old(self)@[escrow_id as int],
                final(self)@[escrow_id as int],
                refund_outcome(old(self)@[escrow_id as int], now as int),
            ),
    {
        if escrow_id as usize >= self.escrows.len() || escrow_id > usize::MAX as u64 {
            return Err(EscrowError::EscrowNotFound);
        }
        let idx = escrow_id as usize;
        assert(self@[idx as int] == self.escrows@[idx as int]@);
        let r = self.escrows[idx].refund(now);
        assert(self@ =~= old(self)@.update(escrow_id as int, self@[escrow_id as int]));
        r
    }
}

} // verus!
