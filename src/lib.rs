//! A collateralised lending ledger: participants stake a collateral token,
//! borrow a second token up to a ratio of their stake, and later repay or
//! withdraw. The accounting rules are verified; storage, address checks and
//! token transfers are left to the host.
//!
//! Choices the rules leave open, made once here:
//! - the collateral ratio is a percentage (`state::RATIO_DENOMINATOR` is 100);
//! - a withdrawal does not check the borrow ceiling again, so it may leave an
//!   existing loan above the ceiling of the remaining stake;
//! - an operation on an account that has no record treats it as empty, while
//!   a query for it answers `NotFound`;
//! - every amount staked, withdrawn or borrowed must be positive; a
//!   repayment of zero is accepted and moves nothing.

pub mod contract;
pub mod error;
pub mod ledger;
pub mod msg;
pub mod ratio;
pub mod state;
pub mod transition;
