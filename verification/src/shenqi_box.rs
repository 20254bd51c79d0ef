//! A program that does nothing yet but say where it runs.

use crate::context::{greeting, spec_greeting, Context};
use vstd::prelude::*;

verus! {

/// The accounts of the diagnostic entry point: none.
#[derive(Clone, Copy, Debug, PartialEq, Eq)]
pub struct Initialize {}

/// Changes nothing; returns the line for the host to log.
pub fn initialize(ctx: Context<Initialize>) -> (line: String)
    ensures
        line@ == spec_greeting(ctx.program_id),
{
    greeting(&ctx.program_id)
}

} // verus!
