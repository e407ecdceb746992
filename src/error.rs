use vstd::prelude::*;
use vstd::string::*;

verus! {

/// Everything that can go wrong while turning a completion into records.
#[derive(Debug, Clone)]
pub enum Error {
    /// One or more field or custom-rule violations, described together.
    ValidationErrors(String),
    /// The payload could not be decoded into the target shape.
    SerdeError(String),
    /// A mode, arity and streaming combination that is not supported.
    NotImplementedError(String),
    /// The transport failed; its description is passed through.
    APIError(String),
    /// Any other failure.
    Generic(String),
    /// No payload could be found: no object, no content, a wrong tool call.
    JsonExtractionError(String),
    /// Every attempt failed; carries the description of the last failure.
    RetriesExhausted(String),
}

/// The failure of the last attempt of a call that was given up.
#[derive(Debug, Clone)]
pub struct RetryError {
    pub last_attempt: Error,
}

/// An error with its texts as character sequences.
pub enum ErrorView {
    ValidationErrors(Seq<char>),
    SerdeError(Seq<char>),
    NotImplementedError(Seq<char>),
    APIError(Seq<char>),
    Generic(Seq<char>),
    JsonExtractionError(Seq<char>),
    RetriesExhausted(Seq<char>),
}

impl View for Error {
    type V = ErrorView;

    open spec fn view(&self) -> ErrorView {
        match self {
            Error::ValidationErrors(m) => ErrorView::ValidationErrors(m@),
            Error::SerdeError(m) => ErrorView::SerdeError(m@),
            Error::NotImplementedError(m) => ErrorView::NotImplementedError(m@),
            Error::APIError(m) => ErrorView::APIError(m@),
            Error::Generic(m) => ErrorView::Generic(m@),
            Error::JsonExtractionError(m) => ErrorView::JsonExtractionError(m@),
            Error::RetriesExhausted(m) => ErrorView::RetriesExhausted(m@),
        }
    }
}

/// The view of a textual result.
pub open spec fn text_result(r: Result<String, Error>) -> Result<Seq<char>, ErrorView> {
    match r {
        Ok(s) => Ok(s@),
        Err(e) => Err(e@),
    }
}

/// The text of an error as shown to users and to the model.
pub open spec fn error_text(e: Error) -> Seq<char> {
    match e {
        Error::ValidationErrors(m) => "Validation error: "@ + m@,
        Error::SerdeError(m) => "Serde error: "@ + m@,
        Error::NotImplementedError(m) => "Not implemented: "@ + m@,
        Error::APIError(m) => "API error: "@ + m@,
        Error::Generic(m) => "Error: "@ + m@,
        Error::JsonExtractionError(m) => "Error: "@ + m@,
        Error::RetriesExhausted(m) => "Max retries exceeded: "@ + m@,
    }
}

/// Failures that asking the model again may repair.
pub open spec fn is_retryable(e: Error) -> bool {
    match e {
        Error::SerdeError(_) | Error::ValidationErrors(_) | Error::JsonExtractionError(_) => true,
        _ => false,
    }
}

impl Error {
    /// The text of this error (see `error_text`).
    pub fn message(&self) -> (r: String)
        ensures
            r@ == error_text(*self),
    {
        let (prefix, detail) = match self {
            Error::ValidationErrors(m) => ("Validation error: ", m),
            Error::SerdeError(m) => ("Serde error: ", m),
            Error::NotImplementedError(m) => ("Not implemented: ", m),
            Error::APIError(m) => ("API error: ", m),
            Error::Generic(m) => ("Error: ", m),
            Error::JsonExtractionError(m) => ("Error: ", m),
            Error::RetriesExhausted(m) => ("Max retries exceeded: ", m),
        };
        let mut r = String::from_str(prefix);
        r.append(detail.as_str());
        r
    }

    /// Whether asking the model again may repair this failure (see `is_retryable`).
    pub fn retryable(&self) -> (r: bool)
        ensures
            r == is_retryable(*self),
    {
        match self {
            Error::SerdeError(_) | Error::ValidationErrors(_) | Error::JsonExtractionError(_) => true,
            _ => false,
        }
    }
}

} // verus!
