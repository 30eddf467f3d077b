//! The commands of the command line, as functions of the snapshot.
//!
//! A command takes the snapshot as it was loaded, changes it where the
//! command says so, and reports what there is to show. Loading, storing and
//! printing are the caller's.

pub mod commands;
pub mod parsers;

use crate::cli::commands::{Commands, Report};
use crate::error::TensileResult;
use crate::models::Database;
use vstd::prelude::*;

verus! {

/// One invocation: the command that the arguments name.
#[derive(Debug)]
pub struct Cli {
    pub command: Commands,
}

impl Cli {
    /// Carries out the command of the invocation on the snapshot.
    pub fn run(self, db: &mut Database) -> (outcome: TensileResult<Report>)
        ensures
            self.command.outcome_of(*old(db), *final(db), outcome),
    {
        self.command.execute(db)
    }
}

} // verus!
