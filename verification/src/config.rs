//! What has to be settled before the first record is logged.

use vstd::prelude::*;

verus! {

/// Why logging cannot be set up.
#[derive(Clone, Copy, Debug, PartialEq, Eq, Structural)]
pub enum ConfigurationError {
    /// No project identifier was given: it is empty.
    MissingProjectId,
}

impl ConfigurationError {
    /// What to tell the user.
    pub open spec fn message_spec(self) -> Seq<char> {
        match self {
            ConfigurationError::MissingProjectId => "the project identifier is missing"@,
        }
    }

    /// What to tell the user.
    pub fn message(&self) -> (text: &'static str)
        ensures
            text@ == self.message_spec(),
    {
        match self {
            ConfigurationError::MissingProjectId => "the project identifier is missing",
        }
    }
}

/// Checks the project identifier at startup: an empty one is refused, any
/// other is accepted as it is.
pub fn check_project_id(project_id: &str) -> (r: Result<(), ConfigurationError>)
    ensures
        r is Ok <==> project_id@.len() > 0,
        r is Err ==> r == Err::<(), ConfigurationError>(ConfigurationError::MissingProjectId),
{
    if project_id.is_empty() {
        Err(ConfigurationError::MissingProjectId)
    } else {
        Ok(())
    }
}

} // verus!
