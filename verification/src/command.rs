use vstd::prelude::*;

use crate::errors::Error;

verus! {

/// The one capability the drivers need from an external command: run it
/// to completion and classify a non-zero exit status as an error carrying
/// the captured output. Drivers implement it for their process handles;
/// nothing is assumed of what the command does.
pub trait SimpleCommand {
    fn run(&mut self) -> Result<(), Error>;
}

} // verus!
