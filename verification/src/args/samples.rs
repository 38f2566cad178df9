//! `samples` arguments.

use vstd::prelude::*;

verus! {

/// `samples`: where to write the example records, or only list them.
#[derive(Debug, Clone)]
pub struct SamplesArgs {
    pub out: String,
    pub dry_run: bool,
}

} // verus!
