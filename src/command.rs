//! The main subcommands of the program.
use vstd::prelude::*;

verus! {

/// A main subcommand: record a window, or take one screenshot of it.
#[derive(Clone, Copy, Debug, PartialEq, Eq, Structural)]
pub enum BaseCommand {
    Record,
    Capture,
}

impl BaseCommand {
    /// The help text of the subcommand.
    pub fn get_description(&self) -> (r: &'static str)
        ensures
            *self == BaseCommand::Record ==> r@ == "Records a window"@,
            *self == BaseCommand::Capture ==> r@ == "Takes a screenshot of a window"@,
    {
        match self {
            BaseCommand::Record => "Records a window",
            BaseCommand::Capture => "Takes a screenshot of a window",
        }
    }

    /// The name the subcommand is invoked by.
    pub fn name(&self) -> (r: &'static str)
        ensures
            *self == BaseCommand::Record ==> r@ == "record"@,
            *self == BaseCommand::Capture ==> r@ == "capture"@,
    {
        match self {
            BaseCommand::Record => "record",
            BaseCommand::Capture => "capture",
        }
    }
}

} // verus!
