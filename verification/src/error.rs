//! The library's error vocabulary, with a human-readable rendering.

use vstd::prelude::*;

use vstd::string::StringExecFns;

verus! {

/// Core protocol errors, each carrying its detail.
#[derive(Debug, Clone, PartialEq)]
pub enum A2AError {
    /// A value could not be serialized or deserialized.
    SerializationError(String),
    /// No task is stored under the identifier.
    TaskNotFound(String),
    /// The envelope was not a valid request.
    InvalidRequest(String),
    /// The method's parameters were malformed.
    InvalidParams(String),
    /// The method name is not recognized.
    MethodNotFound(String),
    /// The server failed internally.
    InternalError(String),
    /// Any other condition.
    Custom(String),
}

impl A2AError {
    /// The detail string carried by this error.
    pub open spec fn spec_detail(&self) -> Seq<char> {
        match self {
            A2AError::SerializationError(s) => s@,
            A2AError::TaskNotFound(s) => s@,
            A2AError::InvalidRequest(s) => s@,
            A2AError::InvalidParams(s) => s@,
            A2AError::MethodNotFound(s) => s@,
            A2AError::InternalError(s) => s@,
            A2AError::Custom(s) => s@,
        }
    }

    /// The rendering's prefix for this error's kind.
    pub open spec fn spec_prefix(&self) -> Seq<char> {
        match self {
            A2AError::SerializationError(_) => "Serialization error: "@,
            A2AError::TaskNotFound(_) => "Task not found: "@,
            A2AError::InvalidRequest(_) => "Invalid request: "@,
            A2AError::InvalidParams(_) => "Invalid parameters: "@,
            A2AError::MethodNotFound(_) => "Method not found: "@,
            A2AError::InternalError(_) => "Internal error: "@,
            A2AError::Custom(_) => "Custom error: "@,
        }
    }

    /// A human-readable rendering: the kind's prefix, then the detail.
    pub fn describe(&self) -> (r: String)
        ensures
            r@ == self.spec_prefix() + self.spec_detail(),
    {
        let prefix = match self {
            A2AError::SerializationError(_) => "Serialization error: ",
            A2AError::TaskNotFound(_) => "Task not found: ",
            A2AError::InvalidRequest(_) => "Invalid request: ",
            A2AError::InvalidParams(_) => "Invalid parameters: ",
            A2AError::MethodNotFound(_) => "Method not found: ",
            A2AError::InternalError(_) => "Internal error: ",
            A2AError::Custom(_) => "Custom error: ",
        };
        let detail = match self {
            A2AError::SerializationError(s) => s.as_str(),
            A2AError::TaskNotFound(s) => s.as_str(),
            A2AError::InvalidRequest(s) => s.as_str(),
            A2AError::InvalidParams(s) => s.as_str(),
            A2AError::MethodNotFound(s) => s.as_str(),
            A2AError::InternalError(s) => s.as_str(),
            A2AError::Custom(s) => s.as_str(),
        };
        prefix.to_owned().concat(detail)
    }
}

} // verus!
