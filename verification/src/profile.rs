//! Identification of the executor profile a request runs under.

use vstd::prelude::*;

verus! {

/// Names the executor profile that should handle a request: the
/// executor itself and an optional variant label.
pub struct ExecutorProfileId {
    /// The executor's name.
    pub executor: String,
    /// The variant of the executor's configuration, if any.
    pub variant: Option<String>,
}

impl ExecutorProfileId {
    /// Both identify the same profile: same executor name and the same
    /// variant label, or none on either side.
    pub open spec fn same_id(&self, other: &ExecutorProfileId) -> bool {
        &&& self.executor@ == other.executor@
        &&& self.variant.deep_view() == other.variant.deep_view()
    }
}

} // verus!
