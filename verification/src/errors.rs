//! The fatal error classes of a whole-document transformation. Individual
//! malformed NUPath entries are not errors: they are dropped and the parse
//! still succeeds.

use vstd::prelude::*;

verus! {

/// Why a whole-document transformation was aborted.
#[derive(Debug, Copy, Clone, PartialEq, Eq, Structural)]
pub enum AuditError {
    /// The document lacks the required graduation-date section.
    MissingGradDate,
    /// A graduation-date field did not parse as a month/day/year date.
    InvalidDate,
    /// A field assumed to hold an integer did not parse as one in range.
    InvalidNumber,
    /// A field assumed to hold a decimal did not parse as one in range.
    InvalidDecimal,
    /// A year code is shorter than its 2-character season prefix, names an
    /// unknown season, or carries an out-of-range year.
    InvalidYearCode,
    /// A course range gave an end number with no entry to attach it to.
    RangeWithoutStart,
}

impl AuditError {
    /// A short description of the failure, for reporting at the process
    /// boundary.
    pub fn fmt(&self) -> (r: &'static str)
        ensures
            r@.len() > 0,
    {
        let m = match self {
            AuditError::MissingGradDate => "missing graduation-date section",
            AuditError::InvalidDate => "malformed graduation date",
            AuditError::InvalidNumber => "malformed integer field",
            AuditError::InvalidDecimal => "malformed decimal field",
            AuditError::InvalidYearCode => "malformed year code",
            AuditError::RangeWithoutStart => "course range without a start",
        };
        proof {
            reveal_strlit("missing graduation-date section");
            reveal_strlit("malformed graduation date");
            reveal_strlit("malformed integer field");
            reveal_strlit("malformed decimal field");
            reveal_strlit("malformed year code");
            reveal_strlit("course range without a start");
        }
        m
    }
}

} // verus!
