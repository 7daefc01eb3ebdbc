//! The record model: one immutable service unit record per fetch, plus the
//! pure classification of its status string into a closed category set.

use vstd::prelude::*;

verus! {

/// One service unit as reported by the host's service manager.
/// Replaced wholesale on every refresh; never mutated in place.
#[derive(Debug, Clone)]
pub struct SystemdService {
    pub unit: String,
    pub load: String,
    pub active: String,
    pub sub: String,
    pub description: String,
}

/// Coarse classification of a unit's runtime state, used for filtering and
/// for coloring. A closed set: every unrecognized status string maps to
/// `Unknown`, so vocabulary changes of the service manager stay harmless.
#[derive(Debug, Clone, Copy, PartialEq, Eq, Structural)]
pub enum StatusCategory {
    Running,
    Exited,
    Dead,
    Failed,
    Unknown,
}

/// The category a `sub` status string falls under.
pub open spec fn spec_status_category(sub: Seq<char>) -> StatusCategory {
    if sub == "running"@ {
        StatusCategory::Running
    } else if sub == "exited"@ {
        StatusCategory::Exited
    } else if sub == "failed"@ {
        StatusCategory::Failed
    } else if sub == "dead"@ {
        StatusCategory::Dead
    } else {
        StatusCategory::Unknown
    }
}

impl SystemdService {
    /// The raw status string, as shown in a list row.
    pub fn status_display(&self) -> (r: &str)
        ensures
            r@ == self.sub@,
    {
        self.sub.as_str()
    }

    /// Classifies this record's `sub` status into the closed category set.
    pub fn status_category(&self) -> (r: StatusCategory)
        ensures
            r == spec_status_category(self.sub@),
    {
        if self.sub == "running".to_owned() {
            StatusCategory::Running
        } else if self.sub == "exited".to_owned() {
            StatusCategory::Exited
        } else if self.sub == "failed".to_owned() {
            StatusCategory::Failed
        } else if self.sub == "dead".to_owned() {
            StatusCategory::Dead
        } else {
            StatusCategory::Unknown
        }
    }
}

} // verus!
