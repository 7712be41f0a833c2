//! The ledger (`transaction_history`) into which all sources are transferred.

pub mod init;
pub mod print;

use vstd::prelude::*;
use crate::utils::steps::{steps_view, DbStep};

verus! {

/// The steps that prepare the ledger table and view (see `init::ledger_setup`).
pub fn create_tables(clean: bool) -> (steps: Vec<DbStep>)
    ensures
        steps_view(steps@) == init::ledger_setup(clean),
{
    init::create_tables(clean)
}

/// The steps that print the ledger's summary (see `print::ledger_summary`).
pub fn print_summary() -> (steps: Vec<DbStep>)
    ensures
        steps_view(steps@) == print::ledger_summary(),
{
    print::print_transaction_summary()
}

} // verus!
