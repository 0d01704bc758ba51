use vstd::prelude::*;

verus! {

/// How a live certificate is shown in the status overview.
#[derive(Clone, Copy, Debug, PartialEq, Eq, Structural)]
pub enum Standing {
    /// More days left than the renewal threshold.
    Valid,
    /// Renewal is due, but the certificate has days left.
    Due,
    /// No whole day left.
    Expiring,
}

/// The standing of a certificate with `days_left` days left under a renewal
/// threshold of `threshold` days.
pub open spec fn standing_spec(days_left: i64, threshold: i64) -> Standing {
    if days_left > threshold {
        Standing::Valid
    } else if days_left > 0 {
        Standing::Due
    } else {
        Standing::Expiring
    }
}

/// Classifies a live certificate for the status overview.
pub fn standing(days_left: i64, threshold: i64) -> (r: Standing)
    ensures
        r == standing_spec(days_left, threshold),
{
    if days_left > threshold {
        Standing::Valid
    } else if days_left > 0 {
        Standing::Due
    } else {
        Standing::Expiring
    }
}

} // verus!
