use vstd::prelude::*;
use vstd::string::*;

verus! {

/// The outcomes of a request that did not succeed.
#[derive(Clone, Copy, Debug, PartialEq, Eq, Structural)]
pub enum TaskError {
    TaskNotFound,
    TaskUpdateFailure,
    TaskCreationFailure,
    BadTaskRequest,
}

/// The HTTP status code that answers each error.
pub open spec fn status_of(e: TaskError) -> u16 {
    match e {
        TaskError::BadTaskRequest => 400,
        TaskError::TaskCreationFailure => 424,
        TaskError::TaskNotFound => 404,
        TaskError::TaskUpdateFailure => 424,
    }
}

/// The machine-stable name of each error, served as the response body.
pub open spec fn name_of(e: TaskError) -> Seq<char> {
    match e {
        TaskError::TaskNotFound => "TaskNotFound"@,
        TaskError::TaskUpdateFailure => "TaskUpdateFailure"@,
        TaskError::TaskCreationFailure => "TaskCreationFailure"@,
        TaskError::BadTaskRequest => "BadTaskRequest"@,
    }
}

/// The parts of the HTTP response that answers an error.
pub struct ErrorResponse {
    pub status: u16,
    pub content_type: String,
    pub body: String,
}

impl TaskError {
    /// The HTTP status code of this error.
    pub fn status_code(&self) -> (r: u16)
        ensures
            r == status_of(*self),
    {
        match self {
            TaskError::BadTaskRequest => 400,
            TaskError::TaskCreationFailure => 424,
            TaskError::TaskNotFound => 404,
            TaskError::TaskUpdateFailure => 424,
        }
    }

    /// The name of this error.
    pub fn to_string(&self) -> (r: String)
        ensures
            r@ == name_of(*self),
    {
        let text = match self {
            TaskError::TaskNotFound => "TaskNotFound",
            TaskError::TaskUpdateFailure => "TaskUpdateFailure",
            TaskError::TaskCreationFailure => "TaskCreationFailure",
            TaskError::BadTaskRequest => "BadTaskRequest",
        };
        String::from_str(text)
    }

    /// The response for this error: its status code, a JSON content type, and its name as body.
    pub fn error_response(&self) -> (r: ErrorResponse)
        ensures
            r.status == status_of(*self),
            r.content_type@ == "application/json"@,
            r.body@ == name_of(*self),
    {
        ErrorResponse {
            status: self.status_code(),
            content_type: String::from_str("application/json"),
            body: self.to_string(),
        }
    }
}

} // verus!
