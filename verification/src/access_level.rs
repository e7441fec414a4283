//! The access levels that this tool lets an administrator read and assign.

use vstd::prelude::*;
use crate::text;

verus! {

/// An Azure DevOps access level of the safe set.
#[derive(Debug, Clone, Copy, PartialEq, Eq, Structural)]
pub enum AccessLevel {
    Stakeholder,
    Basic,
    BasicTestPlans,
}

/// The message of a rejected access level value.
pub open spec fn invalid_access_level_message() -> Seq<char> {
    "accessLevel 無效；可用值：stakeholder、basic、basic-test-plans"@
}

/// The access level that a command-line value names, if any: its own name or
/// its API value (`express` for `basic`, `advanced` for `basic-test-plans`).
pub open spec fn access_level_named(value: Seq<char>) -> Option<AccessLevel> {
    let key = text::dashed(value);
    if key == "stakeholder"@ {
        Some(AccessLevel::Stakeholder)
    } else if key == "basic"@ || key == "express"@ {
        Some(AccessLevel::Basic)
    } else if key == "basic-test-plans"@ || key == "advanced"@ {
        Some(AccessLevel::BasicTestPlans)
    } else {
        None
    }
}

impl AccessLevel {
    /// The command-line spelling.
    pub open spec fn cli_text(self) -> Seq<char> {
        match self {
            AccessLevel::Stakeholder => "stakeholder"@,
            AccessLevel::Basic => "basic"@,
            AccessLevel::BasicTestPlans => "basic-test-plans"@,
        }
    }

    /// The `accountLicenseType` value of the entitlement API.
    pub open spec fn api_text(self) -> Seq<char> {
        match self {
            AccessLevel::Stakeholder => "stakeholder"@,
            AccessLevel::Basic => "express"@,
            AccessLevel::BasicTestPlans => "advanced"@,
        }
    }

    /// The name that the Azure DevOps portal shows.
    pub open spec fn display_text(self) -> Seq<char> {
        match self {
            AccessLevel::Stakeholder => "Stakeholder"@,
            AccessLevel::Basic => "Basic"@,
            AccessLevel::BasicTestPlans => "Basic + Test Plans"@,
        }
    }

    /// Whether an API or command-line value denotes this level.
    pub open spec fn matches_text(self, value: Seq<char>) -> bool {
        text::dashed(value) == self.cli_text() || text::dashed(value) == self.api_text()
    }

    pub fn cli_name(self) -> (r: &'static str)
        ensures
            r@ == self.cli_text(),
    {
        match self {
            AccessLevel::Stakeholder => "stakeholder",
            AccessLevel::Basic => "basic",
            AccessLevel::BasicTestPlans => "basic-test-plans",
        }
    }

    pub fn api_account_license_type(self) -> (r: &'static str)
        ensures
            r@ == self.api_text(),
    {
        match self {
            AccessLevel::Stakeholder => "stakeholder",
            AccessLevel::Basic => "express",
            AccessLevel::BasicTestPlans => "advanced",
        }
    }

    pub fn display_name(self) -> (r: &'static str)
        ensures
            r@ == self.display_text(),
    {
        match self {
            AccessLevel::Stakeholder => "Stakeholder",
            AccessLevel::Basic => "Basic",
            AccessLevel::BasicTestPlans => "Basic + Test Plans",
        }
    }

    /// Whether `value`, trimmed, lower-cased and with `_` read as `-`, is this
    /// level's command-line or API spelling.
    pub fn matches_api_value(self, value: &str) -> (r: bool)
        ensures
            r == self.matches_text(value@),
    {
        let key = text::dashed_chars(value);
        text::spells(&key, self.cli_name()) || text::spells(&key, self.api_account_license_type())
    }

    /// Reads a command-line value: `stakeholder`, `basic` (alias `express`) or
    /// `basic-test-plans` (alias `advanced`), in any ASCII case, with
    /// surrounding white space and `_` for `-`.
    pub fn parse(value: &str) -> (r: Result<AccessLevel, String>)
        ensures
            match r {
                Ok(level) => access_level_named(value@) == Some(level),
                Err(message) => access_level_named(value@) is None
                    && message@ == invalid_access_level_message(),
            },
    {
        let key = text::dashed_chars(value);
        if text::spells(&key, "stakeholder") {
            Ok(AccessLevel::Stakeholder)
        } else if text::spells(&key, "basic") || text::spells(&key, "express") {
            Ok(AccessLevel::Basic)
        } else if text::spells(&key, "basic-test-plans") || text::spells(&key, "advanced") {
            Ok(AccessLevel::BasicTestPlans)
        } else {
            Err("accessLevel 無效；可用值：stakeholder、basic、basic-test-plans".to_owned())
        }
    }
}

impl std::str::FromStr for AccessLevel {
    type Err = String;

    fn from_str(value: &str) -> (r: Result<Self, Self::Err>)
        ensures
            match r {
                Ok(level) => access_level_named(value@) == Some(level),
                Err(message) => access_level_named(value@) is None && message@ == invalid_access_level_message(),
            },
    {
        AccessLevel::parse(value)
    }
}

/// Every access level reads back from its command-line spelling and from its
/// API value.
pub proof fn lemma_access_level_cli_round_trip(level: AccessLevel)
    ensures
        access_level_named(level.cli_text()) == Some(level),
        access_level_named(level.api_text()) == Some(level),
{
    reveal_strlit("stakeholder");
    reveal_strlit("basic");
    reveal_strlit("basic-test-plans");
    reveal_strlit("express");
    reveal_strlit("advanced");
    text::lemma_plain_word_fixed(level.cli_text());
    text::lemma_plain_word_fixed(level.api_text());
}

/// Every access level matches both its command-line and its API spelling.
pub proof fn lemma_access_level_matches_own_spellings(level: AccessLevel)
    ensures
        level.matches_text(level.cli_text()),
        level.matches_text(level.api_text()),
{
    reveal_strlit("stakeholder");
    reveal_strlit("basic");
    reveal_strlit("basic-test-plans");
    reveal_strlit("express");
    reveal_strlit("advanced");
    text::lemma_plain_word_fixed(level.cli_text());
    text::lemma_plain_word_fixed(level.api_text());
}

/// Distinct access levels have distinct API spellings, and none matches
/// another level's API spelling.
pub proof fn lemma_access_level_api_values_distinct(a: AccessLevel, b: AccessLevel)
    ensures
        a != b ==> a.api_text() != b.api_text(),
        a != b ==> !b.matches_text(a.api_text()),
{
    reveal_strlit("stakeholder");
    reveal_strlit("basic");
    reveal_strlit("basic-test-plans");
    reveal_strlit("express");
    reveal_strlit("advanced");
    text::lemma_plain_word_fixed(a.api_text());
    if a != b {
        assert(a.api_text().len() != b.api_text().len() || a.api_text()[0] != b.api_text()[0]);
        assert(a.api_text() != b.cli_text());
    }
}

} // verus!
