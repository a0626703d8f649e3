//! The protocol's instruction rules: fee configuration, liquidation and
//! settlement sizing, repayment, vault share accounting and the
//! instructions' parameter types.

pub mod fee_config_helpers;
pub mod liquidate_loan;
pub mod repay;
pub mod vault;
pub mod create_sub_vault;
pub mod params;
pub mod admin;
pub mod matched_loan;
pub mod withdraw;
pub mod claim;
pub mod risk_profile;
pub mod place_order;
pub mod matching;
pub mod match_crank;
pub mod loan;
