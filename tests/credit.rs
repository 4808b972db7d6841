use agent_ledger::{CreditProfile, CreditScoringContract, TransactionLimits};

fn profile(total: u64, successful: u64, defaults: u64, volume: i128, age: u64) -> CreditProfile {
    CreditProfile {
        agent_did: String::from("did:stellar:agent1"),
        score: 500,
        total_transactions: total,
        successful_transactions: successful,
        defaults,
        total_volume: volume,
        account_age: age,
        last_updated: age,
    }
}

#[test]
fn limits_for_neutral_score() {
    let limits = CreditScoringContract::calculate_limits(500);
    assert_eq!(
        limits,
        TransactionLimits {
            max_buy_amount: 10000,
            max_sell_amount: 10000,
            max_loan_amount: 5000,
            max_borrow_amount: 3000,
            daily_transaction_limit: 50000,
        }
    );
    assert!(limits.max_buy_amount > 0);
    assert!(limits.max_sell_amount > 0);
    assert!(limits.max_loan_amount > 0);
    assert!(limits.max_borrow_amount > 0);
    assert!(limits.daily_transaction_limit > 0);
}

#[test]
fn limits_grow_with_each_full_five_hundred() {
    assert_eq!(CreditScoringContract::calculate_limits(499).max_buy_amount, 0);
    let top = CreditScoringContract::calculate_limits(1000);
    assert_eq!(top.max_buy_amount, 20000);
    assert_eq!(top.max_loan_amount, 10000);
    assert_eq!(top.max_borrow_amount, 6000);
    assert_eq!(top.daily_transaction_limit, 100000);
    let huge = CreditScoringContract::calculate_limits(u32::MAX);
    assert_eq!(huge.max_buy_amount, 10_000_000 * 8_589_934 / 1000);
}

#[test]
fn limits_follow_the_profile_score() {
    let mut p = profile(0, 0, 0, 0, 0);
    p.score = 1000;
    assert_eq!(
        CreditScoringContract::get_transaction_limits(&p),
        CreditScoringContract::calculate_limits(1000)
    );
}

#[test]
fn new_record_scores_neutral() {
    assert_eq!(CreditScoringContract::calculate_score(&profile(0, 0, 0, 0, 0)), 500);
}

#[test]
fn score_weighs_history_volume_age_and_count() {
    // 350 history + 10 volume + 10 days + 20 for ten transactions
    assert_eq!(CreditScoringContract::calculate_score(&profile(10, 10, 0, 10_000_000, 864000)), 390);
    // one success, small volume
    assert_eq!(CreditScoringContract::calculate_score(&profile(1, 1, 0, 1_000_000, 0)), 352);
    // no volume scores the neutral 150
    assert_eq!(CreditScoringContract::calculate_score(&profile(1, 1, 0, 0, 0)), 502);
    // caps: volume 300, age 150, count 200
    assert_eq!(
        CreditScoringContract::calculate_score(&profile(1000, 1000, 0, 1_000_000_000_000, 86400 * 1000)),
        1000
    );
}

#[test]
fn defaults_are_penalised() {
    assert_eq!(CreditScoringContract::calculate_score(&profile(1, 0, 1, 1_000_000, 0)), 0);
    // 175 history + 150 volume + 0 age + 4 count - 100
    assert_eq!(CreditScoringContract::calculate_score(&profile(2, 1, 1, 0, 0)), 229);
}
