use vstd::prelude::*;

verus! {

/// Query of an upgrade request: the id the session claims.
#[derive(Clone, Debug)]
pub struct ConnectRequest {
    pub id: String,
}

/// An error surfaced to the caller of an upgrade request.
#[derive(Debug)]
#[non_exhaustive]
pub enum AppError {
    DuplicateId,
    InternalServerError(String),
}

pub open spec fn app_error_message(e: AppError) -> Seq<char> {
    match e {
        AppError::DuplicateId => "The ID already exists"@,
        AppError::InternalServerError(m) => "An internal server error occurred: "@ + m@,
    }
}

impl AppError {
    /// The HTTP status the error is answered with.
    pub fn status_code(&self) -> (r: u16)
        ensures
            self is DuplicateId ==> r == 400,
            self is InternalServerError ==> r == 500,
    {
        match self {
            AppError::DuplicateId => 400,
            AppError::InternalServerError(_) => 500,
        }
    }

    /// The text of the error, as the response body carries it.
    pub fn message(&self) -> (r: String)
        ensures
            r@ == app_error_message(*self),
    {
        match self {
            AppError::DuplicateId => String::from_str("The ID already exists"),
            AppError::InternalServerError(m) => {
                let mut s = String::from_str("An internal server error occurred: ");
                s.append(m.as_str());
                s
            },
        }
    }
}

/// Turns the error of a failed step into an internal server error.
pub trait AppErrorExt<T, E> {
    fn map_app_err(self) -> Result<T, AppError>;
}

impl<T> AppErrorExt<T, String> for Result<T, String> {
    fn map_app_err(self) -> (r: Result<T, AppError>)
        ensures
            self matches Ok(v) ==> r == Ok::<T, AppError>(v),
            self matches Err(e) ==> r matches Err(AppError::InternalServerError(m)) && m@ == e@,
    {
        match self {
            Ok(v) => Ok(v),
            Err(e) => Err(AppError::InternalServerError(e)),
        }
    }
}

} // verus!
