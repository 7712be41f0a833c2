//! Loading household transaction data (Money Forward exports, Amazon order
//! history) into a ledger database: parsing, validation, categorization
//! rules and the decisions of the load and transfer steps.

pub mod consolidation;
pub mod error;
pub mod input;
pub mod utils;
