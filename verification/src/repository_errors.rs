//! Error kinds of the repository operations, and the classification of
//! plain store failure reports into them.
//!
//! A failed call against the backing store is reported to the library as a
//! [`StoreFailure`]; the classifiers below turn such a report into the error
//! kind of the operation that made the call, exactly as the service's error
//! policy prescribes.

use vstd::prelude::*;

verus! {

/// What a failed store call reports, reduced to the three outcomes the
/// repository distinguishes: the table was not found, a conditional write
/// found its condition false, or anything else.
#[derive(Clone, Copy, Debug, PartialEq, Eq, Structural)]
pub enum StoreFailure {
    ResourceMissing,
    ConditionFailed,
    Other,
}

#[derive(Clone, Debug, PartialEq)]
pub enum GetAppError {
    ResourceNotFound(u16),
    ValidationError(String),
    UnexpectedError,
}

#[derive(Clone, Debug, PartialEq)]
pub enum ListAppsError {
    ValidationError(String),
    UnexpectedError,
}

#[derive(Clone, Debug, PartialEq)]
pub enum DeleteAppError {
    ResourceNotFound(u16),
    ValidationError(String),
    UnexpectedError,
}

#[derive(Clone, Debug, PartialEq)]
pub enum UpdateAppError {
    ResourceNotFound(u16),
    ValidationError(String),
    UnexpectedError,
}

#[derive(Clone, Debug, PartialEq)]
pub enum CreateAppError {
    ResourceAlreadyExists { name: String },
    ValidationError(String),
    UnexpectedError,
}

#[derive(Clone, Debug, PartialEq)]
pub enum AddAppError {
    ResourceNotFound(u16),
    ResourceAlreadyExists { name: String },
    ValidationError(String),
    UnexpectedError,
}

/// A read keyed by an id that the store reports missing is a lookup miss;
/// every other failure is unexpected.
pub fn classify_get_failure(f: StoreFailure, id: u16) -> (r: GetAppError)
    ensures
        r == if f is ResourceMissing {
            GetAppError::ResourceNotFound(id)
        } else {
            GetAppError::UnexpectedError
        },
{
    match f {
        StoreFailure::ResourceMissing => GetAppError::ResourceNotFound(id),
        _ => GetAppError::UnexpectedError,
    }
}

/// A conditional insert whose key-absence condition failed means the record
/// already exists; every other failure is unexpected.
pub fn classify_add_failure(f: StoreFailure, name: String) -> (r: AddAppError)
    ensures
        r == if f is ConditionFailed {
            AddAppError::ResourceAlreadyExists { name }
        } else {
            AddAppError::UnexpectedError
        },
{
    match f {
        StoreFailure::ConditionFailed => AddAppError::ResourceAlreadyExists { name },
        _ => AddAppError::UnexpectedError,
    }
}

/// As [`classify_add_failure`], for the custom creation path.
pub fn classify_create_failure(f: StoreFailure, name: String) -> (r: CreateAppError)
    ensures
        r == if f is ConditionFailed {
            CreateAppError::ResourceAlreadyExists { name }
        } else {
            CreateAppError::UnexpectedError
        },
{
    match f {
        StoreFailure::ConditionFailed => CreateAppError::ResourceAlreadyExists { name },
        _ => CreateAppError::UnexpectedError,
    }
}

/// A conditional delete whose key-existence condition failed means there was
/// nothing to delete; every other failure is unexpected.
pub fn classify_delete_failure(f: StoreFailure, id: u16) -> (r: DeleteAppError)
    ensures
        r == if f is ConditionFailed {
            DeleteAppError::ResourceNotFound(id)
        } else {
            DeleteAppError::UnexpectedError
        },
{
    match f {
        StoreFailure::ConditionFailed => DeleteAppError::ResourceNotFound(id),
        _ => DeleteAppError::UnexpectedError,
    }
}

/// A failed scan is always unexpected: an empty table is a success with no
/// rows, never an error.
pub fn classify_list_failure(_f: StoreFailure) -> (r: ListAppsError)
    ensures
        r == ListAppsError::UnexpectedError,
{
    ListAppsError::UnexpectedError
}

/// A failed unconditional overwrite is always unexpected: existence was
/// checked by the service before the write.
pub fn classify_update_failure(_f: StoreFailure) -> (r: UpdateAppError)
    ensures
        r == UpdateAppError::UnexpectedError,
{
    UpdateAppError::UnexpectedError
}

} // verus!
