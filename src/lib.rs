//! Financial primitives for autonomous agents: a collateralised loan engine
//! and an escrow-protected trade, each a verified state machine over plain
//! values, and the credit-scoring formulas that turn an agent's record into a
//! score and a score into transaction limits.
//!
//! The engines never touch storage, clocks or token balances themselves: the
//! host reads the current time and the callers' identities, hands them in, and
//! performs the asset movements that an operation returns.

mod account;
pub mod credit;
pub mod escrow;
pub mod loan;
mod loan_book;

pub use account::AccountId;
pub use escrow::{EscrowContract, EscrowError, EscrowParty, EscrowState, EscrowStatus, EscrowStep, EscrowTransfer};
pub use credit::{CreditProfile, CreditScoringContract, TransactionLimits};
pub use loan_book::LoanContract;
pub use loan::{LoanError, LoanState, LoanStatus, LoanTerms, Party, Payment, Settlement, Transfer};
