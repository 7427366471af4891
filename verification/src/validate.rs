//! Pre-flight validation of an upload from the encoder's inspection run.
//!
//! The inspection run prints what it finds to its diagnostic stream. Two
//! phrases in that text mark a file that cannot be converted; the check is
//! a plain substring match and follows the encoder's wording.

use vstd::prelude::*;
use crate::text::{contains, occurs_in};

verus! {

/// The inspection diagnostic marks the input as unusable: it reports
/// invalid data, or an input without any stream.
pub open spec fn probe_rejects(diagnostic: Seq<char>) -> bool {
    occurs_in("Invalid data found"@, diagnostic) || occurs_in(
        "does not contain any stream"@,
        diagnostic,
    )
}

/// Whether the inspection diagnostic marks the input as unusable.
pub fn is_rejected_by_probe(diagnostic: &str) -> (rejected: bool)
    ensures
        rejected == probe_rejects(diagnostic@),
{
    contains(diagnostic, "Invalid data found") || contains(
        diagnostic,
        "does not contain any stream",
    )
}

} // verus!
