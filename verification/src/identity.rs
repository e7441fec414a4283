//! How a command names the user it acts on.

use vstd::prelude::*;
use crate::error::AdoctlError;
use crate::text;

verus! {

/// A user named by UPN / e-mail or by entitlement id.
#[derive(Debug, Clone, PartialEq, Eq)]
pub enum UserIdentifier {
    Upn(String),
    Id(String),
}

impl UserIdentifier {
    /// The UPN or id, whichever names the user.
    pub open spec fn value_text(&self) -> Seq<char> {
        match self {
            UserIdentifier::Upn(v) => v@,
            UserIdentifier::Id(v) => v@,
        }
    }

    /// Whether `r` is the outcome of naming a user by `upn` / `id`: exactly one
    /// of them, trimmed and not blank, else `MissingUserIdentifier`.
    pub open spec fn selects(upn: Option<String>, id: Option<String>, r: Result<UserIdentifier, AdoctlError>) -> bool {
        match (upn, id) {
            (Some(u), None) => if text::trim(u@).len() > 0 {
                r matches Ok(UserIdentifier::Upn(v)) && v@ == text::trim(u@)
            } else {
                r matches Err(AdoctlError::MissingUserIdentifier)
            },
            (None, Some(i)) => if text::trim(i@).len() > 0 {
                r matches Ok(UserIdentifier::Id(v)) && v@ == text::trim(i@)
            } else {
                r matches Err(AdoctlError::MissingUserIdentifier)
            },
            _ => r matches Err(AdoctlError::MissingUserIdentifier),
        }
    }

    /// Builds the identifier from exactly one of `--upn` and `--id`, trimmed;
    /// a missing, doubled or blank value is `MissingUserIdentifier`.
    pub fn from_parts(upn: Option<String>, id: Option<String>) -> (r: Result<UserIdentifier, AdoctlError>)
        ensures
            Self::selects(upn, id, r),
    {
        match (upn, id) {
            (Some(u), None) => {
                let t = text::trimmed(u.as_str());
                if t.as_str().is_empty() {
                    Err(AdoctlError::MissingUserIdentifier)
                } else {
                    Ok(UserIdentifier::Upn(t))
                }
            },
            (None, Some(i)) => {
                let t = text::trimmed(i.as_str());
                if t.as_str().is_empty() {
                    Err(AdoctlError::MissingUserIdentifier)
                } else {
                    Ok(UserIdentifier::Id(t))
                }
            },
            _ => Err(AdoctlError::MissingUserIdentifier),
        }
    }

    /// The UPN or id, for messages.
    pub fn label(&self) -> (r: &str)
        ensures
            r@ == self.value_text(),
    {
        match self {
            UserIdentifier::Upn(v) => v.as_str(),
            UserIdentifier::Id(v) => v.as_str(),
        }
    }

    /// Whether `candidate` is this identifier's UPN, ignoring ASCII case; an id
    /// matches no UPN.
    pub fn is_upn_match(&self, candidate: &str) -> (r: bool)
        ensures
            r == match self {
                UserIdentifier::Upn(v) => text::same_ignoring_ascii_case(v@, candidate@),
                UserIdentifier::Id(_) => false,
            },
    {
        match self {
            UserIdentifier::Upn(v) => text::same_text_ignoring_ascii_case(v.as_str(), candidate),
            UserIdentifier::Id(_) => false,
        }
    }
}

} // verus!
