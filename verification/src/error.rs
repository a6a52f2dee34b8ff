//! The error that every command ends in when it fails.
use vstd::prelude::*;

verus! {

/// What went wrong, in words for the user.
#[derive(Debug, PartialEq, Eq)]
pub struct AppError {
    pub message: String,
}

pub type AppResult<T> = Result<T, AppError>;

impl DeepView for AppError {
    type V = Seq<char>;

    open spec fn deep_view(&self) -> Seq<char> {
        self.message@
    }
}

/// A result, with its value and its error taken by their views.
pub open spec fn outcome<T: DeepView>(r: AppResult<T>) -> Result<T::V, Seq<char>> {
    match r {
        Ok(value) => Ok(value.deep_view()),
        Err(error) => Err(error.deep_view()),
    }
}

impl AppError {
    pub fn new(message: &str) -> (r: AppError)
        ensures
            r.deep_view() == message@,
    {
        AppError { message: message.to_owned() }
    }

    pub fn from_message(message: String) -> (r: AppError)
        ensures
            r.deep_view() == message@,
    {
        AppError { message }
    }

    /// The words of the error.
    pub fn to_text(&self) -> (r: String)
        ensures
            r@ == self.deep_view(),
    {
        self.message.clone()
    }
}

impl Clone for AppError {
    fn clone(&self) -> (r: AppError)
        ensures
            r.deep_view() == self.deep_view(),
    {
        AppError { message: self.message.clone() }
    }
}

} // verus!
