//! The errors of the tool and the process exit code of each.

use vstd::prelude::*;

verus! {

/// Everything that can go wrong, with the details as plain values. An HTTP
/// status is its numeric code; errors of the HTTP, URL, JSON and I/O layers
/// carry their message.
#[derive(Debug, Clone, PartialEq, Eq)]
pub enum AdoctlError {
    MissingOrganization,
    InvalidOrganization(String),
    MissingUserIdentifier,
    UserNotFound(String),
    AmbiguousUser(String),
    ProjectNotFound(String),
    GroupNotFound(String),
    PoolNotFound(String),
    AmbiguousPool(String),
    Pagination(String),
    NotLoggedIn,
    CredentialStore(String),
    Authentication(String),
    AzureCli(String),
    Api { status: u16, message: String },
    Http(String),
    Url(String),
    Json(String),
    Io(String),
}

/// `Result` with the tool's error.
pub type Result<T> = std::result::Result<T, AdoctlError>;

/// Whether an HTTP status code is a client error (4xx).
pub open spec fn is_client_error(status: u16) -> bool {
    400 <= status && status < 500
}

impl AdoctlError {
    /// The exit code: 2 for missing or malformed input, 3 for authentication,
    /// 4 for rejected requests and missing resources, 1 for anything else.
    pub open spec fn exit_code_of(&self) -> i32 {
        match self {
            AdoctlError::MissingOrganization | AdoctlError::InvalidOrganization(_)
            | AdoctlError::MissingUserIdentifier | AdoctlError::NotLoggedIn => 2,
            AdoctlError::Authentication(_) | AdoctlError::AzureCli(_)
            | AdoctlError::CredentialStore(_) => 3,
            AdoctlError::Api { status, .. } => if is_client_error(*status) {
                4
            } else {
                1
            },
            AdoctlError::UserNotFound(_) | AdoctlError::AmbiguousUser(_)
            | AdoctlError::ProjectNotFound(_) | AdoctlError::GroupNotFound(_)
            | AdoctlError::PoolNotFound(_) | AdoctlError::AmbiguousPool(_) => 4,
            _ => 1,
        }
    }

    pub fn exit_code(&self) -> (r: i32)
        ensures
            r == self.exit_code_of(),
    {
        match self {
            AdoctlError::MissingOrganization | AdoctlError::InvalidOrganization(_)
            | AdoctlError::MissingUserIdentifier | AdoctlError::NotLoggedIn => 2,
            AdoctlError::Authentication(_) | AdoctlError::AzureCli(_)
            | AdoctlError::CredentialStore(_) => 3,
            AdoctlError::Api { status, .. } => if 400 <= *status && *status < 500 {
                4
            } else {
                1
            },
            AdoctlError::UserNotFound(_) | AdoctlError::AmbiguousUser(_)
            | AdoctlError::ProjectNotFound(_) | AdoctlError::GroupNotFound(_)
            | AdoctlError::PoolNotFound(_) | AdoctlError::AmbiguousPool(_) => 4,
            _ => 1,
        }
    }
}

/// An error with a 404 status becomes `missing`; any other error is kept.
pub open spec fn not_found_as(error: AdoctlError, missing: AdoctlError) -> AdoctlError {
    match error {
        AdoctlError::Api { status, .. } => if status == 404 {
            missing
        } else {
            error
        },
        _ => error,
    }
}

/// Replaces an API error with status 404 by `missing`.
pub fn map_not_found(error: AdoctlError, missing: AdoctlError) -> (r: AdoctlError)
    ensures
        r == not_found_as(error, missing),
{
    match error {
        AdoctlError::Api { status, message } => if status == 404 {
            missing
        } else {
            AdoctlError::Api { status, message }
        },
        other => other,
    }
}

/// Exit codes: 2 for missing or malformed input and a missing login, 3 for
/// authentication, 4 for client errors of the API and missing resources, 1
/// for everything else.
pub proof fn lemma_exit_codes(error: AdoctlError)
    ensures
        1 <= error.exit_code_of() <= 4,
        (error is MissingOrganization || error is InvalidOrganization || error is MissingUserIdentifier
            || error is NotLoggedIn) ==> error.exit_code_of() == 2,
        (error is Authentication || error is AzureCli || error is CredentialStore) ==> error.exit_code_of() == 3,
        (error is UserNotFound || error is AmbiguousUser || error is ProjectNotFound || error is GroupNotFound
            || error is PoolNotFound || error is AmbiguousPool) ==> error.exit_code_of() == 4,
        (error matches AdoctlError::Api { status, .. } && 400 <= status < 500) ==> error.exit_code_of() == 4,
        (error matches AdoctlError::Api { status, .. } && !(400 <= status < 500)) ==> error.exit_code_of() == 1,
        (error is Pagination || error is Http || error is Url || error is Json || error is Io)
            ==> error.exit_code_of() == 1,
{
}

} // verus!
