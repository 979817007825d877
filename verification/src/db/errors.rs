//! Failures of the storage engine as repository errors.

use crate::models::RepositoryError;
use vstd::prelude::*;

verus! {

/// Lets a result of the storage engine speak the repository's error type.
pub trait RepoErrExts<T>: Sized {
    fn to_repo_err(self) -> Result<T, RepositoryError>;
}

/// The result `outcome` with its failure, the text of the storage engine's
/// error, as an internal error of the repository.
pub open spec fn as_repo_err<T>(outcome: Result<T, String>) -> Result<T, RepositoryError> {
    match outcome {
        Ok(value) => Ok(value),
        Err(text) => Err(RepositoryError::InternalServerError(text)),
    }
}

impl<T> RepoErrExts<T> for Result<T, String> {
    fn to_repo_err(self) -> (r: Result<T, RepositoryError>)
        ensures
            r == as_repo_err(self),
    {
        match self {
            Ok(value) => Ok(value),
            Err(text) => Err(RepositoryError::InternalServerError(text)),
        }
    }
}

} // verus!
