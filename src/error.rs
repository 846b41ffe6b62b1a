use vstd::prelude::*;
use vstd::string::StringExecFns;

verus! {

/// Why a reconcile pass did not complete.
#[derive(Clone, Debug, PartialEq, Eq)]
pub enum DatabricksKubeError {
    /// No remote identity is recorded yet: the remote object does not exist.
    /// A signal that selects the create branch, not a failure.
    IDUnsetError,
    /// A remote call failed or returned data that could not be read.
    RemoteAPIError(String),
    /// Replacing the object in the cluster store failed.
    ResourceUpdateError(String),
    /// The watch or dispatch machinery itself failed.
    ControllerError(String),
}

impl DatabricksKubeError {
    /// Whether this error only says that no remote identity is recorded.
    pub open spec fn is_identity_unset(&self) -> bool {
        self is IDUnsetError
    }

    pub fn identity_unset(&self) -> (r: bool)
        ensures
            r == self.is_identity_unset(),
    {
        match self {
            DatabricksKubeError::IDUnsetError => true,
            _ => false,
        }
    }

    /// A readable account of the error: the carried text, or a fixed
    /// sentence for a missing identity.
    pub open spec fn message_spec(&self) -> Seq<char> {
        match self {
            DatabricksKubeError::IDUnsetError => "remote identity is not set"@,
            DatabricksKubeError::RemoteAPIError(m) => m@,
            DatabricksKubeError::ResourceUpdateError(m) => m@,
            DatabricksKubeError::ControllerError(m) => m@,
        }
    }

    /// A readable account of the error, for the loop's log.
    pub fn message(&self) -> (r: String)
        ensures
            r@ == self.message_spec(),
    {
        match self {
            DatabricksKubeError::IDUnsetError => String::from_str("remote identity is not set"),
            DatabricksKubeError::RemoteAPIError(m) => m.clone(),
            DatabricksKubeError::ResourceUpdateError(m) => m.clone(),
            DatabricksKubeError::ControllerError(m) => m.clone(),
        }
    }
}

} // verus!
