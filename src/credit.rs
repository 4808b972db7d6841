//! Credit scoring: the weighted score of an agent's record and the
//! transaction limits that a score grants.
use vstd::prelude::*;

verus! {

/// The base limit, in stroops, that a score of 500 grants.
pub const BASE_LIMIT: i128 = 10_000_000;

/// The score of an agent with no transactions.
pub const NEUTRAL_SCORE: u32 = 500;

/// An agent's record, as scored.
#[derive(Debug)]
pub struct CreditProfile {
    pub agent_did: String,
    /// Between 0 and 1000.
    pub score: u32,
    pub total_transactions: u64,
    pub successful_transactions: u64,
    pub defaults: u64,
    /// In stroops.
    pub total_volume: i128,
    /// Seconds since the profile was created.
    pub account_age: u64,
    pub last_updated: u64,
}

/// The limits that a credit score grants, in stroops.
#[derive(Clone, Copy, Debug, PartialEq, Eq, Structural)]
pub struct TransactionLimits {
    pub max_buy_amount: i128,
    pub max_sell_amount: i128,
    pub max_loan_amount: i128,
    pub max_borrow_amount: i128,
    pub daily_transaction_limit: i128,
}

pub struct CreditScoringContract;

pub open spec fn min_int(a: int, b: int) -> int {
    if a <= b {
        a
    } else {
        b
    }
}

/// The score of a record: payment history (up to 350), volume (up to 300,
/// 150 with no volume), account age in days (up to 150) and transaction count
/// (up to 200), less 100 per default, floored at 0 and capped at 1000. A
/// record with no transactions scores 500.
pub open spec fn credit_score(
    total: int,
    successful: int,
    defaults: int,
    volume: int,
    account_age: int,
) -> int {
    if total == 0 {
        500
    } else {
        let history = (successful * 1000 / total) * 350 / 1000;
        let volume_score = if volume > 0 {
            min_int((volume / 10_000_000) * 10, 300)
        } else {
            150
        };
        let age_score = min_int(account_age / 86400, 150);
        let count_score = min_int(total * 2, 200);
        let sum = history + volume_score + age_score + count_score;
        let penalty = defaults * 100;
        min_int(if sum > penalty { sum - penalty } else { 0 }, 1000)
    }
}

/// The multiplier, in thousandths, that a score grants: one for each full 500.
pub open spec fn limit_multiplier(score: int) -> int {
    score * 1000 / 500_000
}

pub open spec fn limits_for(score: int) -> TransactionLimits {
    let m = limit_multiplier(score);
    TransactionLimits {
        max_buy_amount: (10_000_000 * m / 1000) as i128,
        max_sell_amount: (10_000_000 * m / 1000) as i128,
        max_loan_amount: (10_000_000 * m * 50 / 100_000) as i128,
        max_borrow_amount: (10_000_000 * m * 30 / 100_000) as i128,
        daily_transaction_limit: (10_000_000 * m * 5 / 1000) as i128,
    }
}

impl CreditScoringContract {
    /// The score of `profile`'s record.
    pub fn calculate_score(profile: &CreditProfile) -> (r: u32)
        requires
            profile.successful_transactions <= profile.total_transactions,
        ensures
            r == credit_score(
                profile.total_transactions as int,
                profile.successful_transactions as int,
                profile.defaults as int,
                profile.total_volume as int,
                profile.account_age as int,
            ),
            r <= 1000,
    {
        let total = profile.total_transactions as u128;
        if total == 0 {
            return NEUTRAL_SCORE;
        }
        let successful = profile.successful_transactions as u128;
        assert(successful * 1000 <= total * 1000) by (nonlinear_arith)
            requires
                successful <= total,
        ;
        let rate = successful * 1000 / total;
        assert(rate <= 1000) by (nonlinear_arith)
            requires
                rate == (successful as int) * 1000 / (total as int),
                successful <= total,
                total > 0,
        ;
        let history = rate * 350 / 1000;
        let volume_score: u128 = if profile.total_volume > 0 {
            let millions = (profile.total_volume / 10_000_000) as u128;
            if millions >= 30 {
                300
            } else {
                millions * 10
            }
        } else {
            150
        };
        let days = profile.account_age as u128 / 86400;
        let age_score: u128 = if days >= 150 {
            150
        } else {
            days
        };
        let count_score: u128 = if total >= 100 {
            200
        } else {
            total * 2
        };
        let sum = history + volume_score + age_score + count_score;
        let penalty = profile.defaults as u128 * 100;
        let net = if sum > penalty {
            sum - penalty
        } else {
            0
        };
        if net >= 1000 {
            1000
        } else {
            net as u32
        }
    }

    /// The limits that `credit_score` grants: a score of 500 grants the base
    /// limit for buying and selling, half of it for lending, three tenths for
    /// borrowing and five times it a day; each full further 500 adds as much.
    pub fn calculate_limits(credit_score: u32) -> (r: TransactionLimits)
        ensures
            r == limits_for(credit_score as int),
    {
        let multiplier = (credit_score as i128) * 1000 / 500_000;
        assert(multiplier <= 8_589_935) by (nonlinear_arith)
            requires
                multiplier == (credit_score as int) * 1000 / 500_000,
                credit_score <= u32::MAX,
        ;
        let max_buy = (BASE_LIMIT * multiplier) / 1000;
        let max_sell = (BASE_LIMIT * multiplier) / 1000;
        let max_loan = (BASE_LIMIT * multiplier * 50) / 100_000;
        let max_borrow = (BASE_LIMIT * multiplier * 30) / 100_000;
        let daily_limit = (BASE_LIMIT * multiplier * 5) / 1000;
        TransactionLimits {
            max_buy_amount: max_buy,
            max_sell_amount: max_sell,
            max_loan_amount: max_loan,
            max_borrow_amount: max_borrow,
            daily_transaction_limit: daily_limit,
        }
    }

    /// The limits that `profile`'s current score grants.
    pub fn get_transaction_limits(profile: &CreditProfile) -> (r: TransactionLimits)
        ensures
            r == limits_for(profile.score as int),
    {
        Self::calculate_limits(profile.score)
    }
}

} // verus!
