//! A follow-up request for a coding-agent session.
//!
//! Carries the prompt, the session to continue, and the executor profile
//! that should run it. Spawning the agent itself is the business of an
//! outside collaborator; this core only hands out the profile
//! identification.

use crate::profile::ExecutorProfileId;
use vstd::prelude::*;

verus! {

/// A request to continue an existing coding-agent session with a new
/// prompt, under a given executor profile.
pub struct CodingAgentFollowUpRequest {
    /// The prompt to hand the agent.
    pub prompt: String,
    /// The session to continue.
    pub session_id: String,
    /// Executor profile specification.
    pub executor_profile_id: ExecutorProfileId,
}

impl CodingAgentFollowUpRequest {
    /// Get the executor profile ID: a copy that identifies the same
    /// profile as the one the request carries.
    pub fn get_executor_profile_id(&self) -> (r: ExecutorProfileId)
        ensures
            r.same_id(&self.executor_profile_id),
    {
        let variant = match &self.executor_profile_id.variant {
            Some(v) => Some(v.clone()),
            None => None,
        };
        ExecutorProfileId { executor: self.executor_profile_id.executor.clone(), variant }
    }
}

} // verus!
