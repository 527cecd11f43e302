//! Pattern-based vulnerability detectors: each one either runs an engine
//! over a function, resolves a symbol through the program index, or scans
//! raw source text. Detectors only consume the engines — they never
//! mutate engine state.

pub mod account_usage;
pub mod arbitrary_cpi;
pub mod authority_delegation;
pub mod cpi_reentrancy;
pub mod error_suppression;
pub mod integer_overflow;
pub mod lamports_rounding;
pub mod loop_overflow;
pub mod mint_burn;
pub mod missing_close;
pub mod missing_owner;
pub mod missing_signer;
pub mod oracle_risks;
pub mod pda_bump;
pub mod pda_collision;
pub mod precision_loss;
pub mod rent_bypass;
pub mod replay_attack;
pub mod scope_validation;
pub mod tainted_flow;
pub mod token_2022;
pub mod unchecked_init;
pub mod unchecked_transfer;
pub mod unsafe_cpi;
pub mod unverified_seeds;
pub mod upgrade_gaps;
pub mod utils;

pub use account_usage::AccountUsageDetector;
pub use arbitrary_cpi::ArbitraryCpiDetector;
pub use authority_delegation::AuthorityDelegationDetector;
pub use cpi_reentrancy::CpiReentrancyDetector;
pub use error_suppression::ErrorSuppressionDetector;
pub use integer_overflow::IntegerOverflowDetector;
pub use lamports_rounding::LamportsRoundingDetector;
pub use loop_overflow::LoopOverflowDetector;
pub use mint_burn::MintBurnDetector;
pub use missing_close::MissingCloseDetector;
pub use missing_owner::MissingOwnerDetector;
pub use missing_signer::MissingSignerDetector;
pub use oracle_risks::OracleRisksDetector;
pub use pda_bump::PdaBumpDetector;
pub use pda_collision::PdaCollisionDetector;
pub use precision_loss::PrecisionLossDetector;
pub use rent_bypass::RentBypassDetector;
pub use replay_attack::ReplayAttackDetector;
pub use scope_validation::ScopeValidationDetector;
pub use tainted_flow::TaintedFlowDetector;
pub use token_2022::Token2022Detector;
pub use unchecked_init::UncheckedInitDetector;
pub use unchecked_transfer::UncheckedTransferDetector;
pub use unsafe_cpi::UnsafeCpiDetector;
pub use unverified_seeds::UnverifiedSeedsDetector;
pub use upgrade_gaps::UpgradeGapsDetector;
