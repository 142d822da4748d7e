//! Transport-level classification of service failures. Every repository or
//! service error maps to one of four kinds; the transport maps each kind to
//! an HTTP status code. Internal error detail is never carried into the
//! user-visible message beyond the offending id or name.

use vstd::prelude::*;
use crate::repository_errors::{AddAppError, CreateAppError, DeleteAppError, GetAppError,
    ListAppsError, UpdateAppError};
use crate::text::{decimal_digits, u16_to_string};

verus! {

/// The four user-visible failure kinds.
#[derive(Clone, Debug, PartialEq)]
pub enum ApiError {
    ResourceNotFound(String),
    ResourceAlreadyExists(String),
    ValidationError(String),
    InternalServerError,
}

impl ApiError {
    /// The HTTP status code of each kind: missing resources are 404,
    /// duplicates 409, invalid requests 400, everything else 500.
    pub fn status_code(&self) -> (r: u16)
        ensures
            r == match self {
                ApiError::ResourceNotFound(_) => 404u16,
                ApiError::ResourceAlreadyExists(_) => 409u16,
                ApiError::ValidationError(_) => 400u16,
                ApiError::InternalServerError => 500u16,
            },
    {
        match self {
            ApiError::ResourceNotFound(_) => 404,
            ApiError::ResourceAlreadyExists(_) => 409,
            ApiError::ValidationError(_) => 400,
            ApiError::InternalServerError => 500,
        }
    }

    /// Classifies a failed read: the missing id is rendered in decimal.
    pub fn from_get_app(e: GetAppError) -> (r: ApiError)
        ensures
            match e {
                GetAppError::ResourceNotFound(id) => r matches ApiError::ResourceNotFound(s) && s@
                    == decimal_digits(id as nat),
                GetAppError::ValidationError(msg) => r == ApiError::ValidationError(msg),
                GetAppError::UnexpectedError => r == ApiError::InternalServerError,
            },
    {
        match e {
            GetAppError::ResourceNotFound(id) => ApiError::ResourceNotFound(u16_to_string(id)),
            GetAppError::ValidationError(msg) => ApiError::ValidationError(msg),
            GetAppError::UnexpectedError => ApiError::InternalServerError,
        }
    }

    /// Classifies a failed catalog addition: an unknown catalog id and a
    /// duplicate both carry what the caller sent.
    pub fn from_add_app(e: AddAppError) -> (r: ApiError)
        ensures
            match e {
                AddAppError::ResourceNotFound(id) => r matches ApiError::ResourceNotFound(s) && s@
                    == decimal_digits(id as nat),
                AddAppError::ResourceAlreadyExists { name } => r
                    == ApiError::ResourceAlreadyExists(name),
                AddAppError::ValidationError(msg) => r == ApiError::ValidationError(msg),
                AddAppError::UnexpectedError => r == ApiError::InternalServerError,
            },
    {
        match e {
            AddAppError::ResourceNotFound(id) => ApiError::ResourceNotFound(u16_to_string(id)),
            AddAppError::ResourceAlreadyExists { name } => ApiError::ResourceAlreadyExists(name),
            AddAppError::ValidationError(msg) => ApiError::ValidationError(msg),
            AddAppError::UnexpectedError => ApiError::InternalServerError,
        }
    }

    /// Classifies a failed custom creation: the duplicate name is carried.
    pub fn from_create_app(e: CreateAppError) -> (r: ApiError)
        ensures
            match e {
                CreateAppError::ResourceAlreadyExists { name } => r
                    == ApiError::ResourceAlreadyExists(name),
                CreateAppError::ValidationError(msg) => r == ApiError::ValidationError(msg),
                CreateAppError::UnexpectedError => r == ApiError::InternalServerError,
            },
    {
        match e {
            CreateAppError::ResourceAlreadyExists { name } => ApiError::ResourceAlreadyExists(
                name,
            ),
            CreateAppError::ValidationError(msg) => ApiError::ValidationError(msg),
            CreateAppError::UnexpectedError => ApiError::InternalServerError,
        }
    }

    /// Classifies a failed delete: the missing id is rendered in decimal.
    pub fn from_delete_app(e: DeleteAppError) -> (r: ApiError)
        ensures
            match e {
                DeleteAppError::ResourceNotFound(id) => r matches ApiError::ResourceNotFound(s)
                    && s@ == decimal_digits(id as nat),
                DeleteAppError::ValidationError(msg) => r == ApiError::ValidationError(msg),
                DeleteAppError::UnexpectedError => r == ApiError::InternalServerError,
            },
    {
        match e {
            DeleteAppError::ResourceNotFound(id) => ApiError::ResourceNotFound(u16_to_string(id)),
            DeleteAppError::ValidationError(msg) => ApiError::ValidationError(msg),
            DeleteAppError::UnexpectedError => ApiError::InternalServerError,
        }
    }

    /// Classifies a failed update: the missing id is rendered in decimal.
    pub fn from_update_app(e: UpdateAppError) -> (r: ApiError)
        ensures
            match e {
                UpdateAppError::ResourceNotFound(id) => r matches ApiError::ResourceNotFound(s)
                    && s@ == decimal_digits(id as nat),
                UpdateAppError::ValidationError(msg) => r == ApiError::ValidationError(msg),
                UpdateAppError::UnexpectedError => r == ApiError::InternalServerError,
            },
    {
        match e {
            UpdateAppError::ResourceNotFound(id) => ApiError::ResourceNotFound(u16_to_string(id)),
            UpdateAppError::ValidationError(msg) => ApiError::ValidationError(msg),
            UpdateAppError::UnexpectedError => ApiError::InternalServerError,
        }
    }

    /// Classifies a failed listing.
    pub fn from_list_apps(e: ListAppsError) -> (r: ApiError)
        ensures
            match e {
                ListAppsError::ValidationError(msg) => r == ApiError::ValidationError(msg),
                ListAppsError::UnexpectedError => r == ApiError::InternalServerError,
            },
    {
        match e {
            ListAppsError::ValidationError(msg) => ApiError::ValidationError(msg),
            ListAppsError::UnexpectedError => ApiError::InternalServerError,
        }
    }
}

} // verus!
