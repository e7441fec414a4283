//! The agent pool types by which pools can be listed.

use vstd::prelude::*;
use crate::text;

verus! {

/// The `poolType` filter of the agent pool list.
#[derive(Debug, Clone, Copy, PartialEq, Eq, Structural)]
pub enum PoolTypeFilter {
    Automation,
    Deployment,
}

/// The message of a rejected pool type value.
pub open spec fn invalid_pool_type_message() -> Seq<char> {
    "代理程式集區型別無效；可用值：automation、deployment"@
}

/// The pool type that a command-line value names, if any.
pub open spec fn pool_type_named(value: Seq<char>) -> Option<PoolTypeFilter> {
    let key = text::folded(value);
    if key == "automation"@ {
        Some(PoolTypeFilter::Automation)
    } else if key == "deployment"@ {
        Some(PoolTypeFilter::Deployment)
    } else {
        None
    }
}

impl PoolTypeFilter {
    /// The `poolType` query value.
    pub open spec fn api_text(self) -> Seq<char> {
        match self {
            PoolTypeFilter::Automation => "automation"@,
            PoolTypeFilter::Deployment => "deployment"@,
        }
    }

    pub fn api_value(self) -> (r: &'static str)
        ensures
            r@ == self.api_text(),
    {
        match self {
            PoolTypeFilter::Automation => "automation",
            PoolTypeFilter::Deployment => "deployment",
        }
    }

    /// Reads a command-line value, trimmed and in any ASCII case.
    pub fn parse(value: &str) -> (r: Result<PoolTypeFilter, String>)
        ensures
            match r {
                Ok(kind) => pool_type_named(value@) == Some(kind),
                Err(message) => pool_type_named(value@) is None
                    && message@ == invalid_pool_type_message(),
            },
    {
        let key = text::folded_chars(value);
        if text::spells(&key, "automation") {
            Ok(PoolTypeFilter::Automation)
        } else if text::spells(&key, "deployment") {
            Ok(PoolTypeFilter::Deployment)
        } else {
            Err("代理程式集區型別無效；可用值：automation、deployment".to_owned())
        }
    }
}

impl std::str::FromStr for PoolTypeFilter {
    type Err = String;

    fn from_str(value: &str) -> (r: Result<Self, Self::Err>)
        ensures
            match r {
                Ok(kind) => pool_type_named(value@) == Some(kind),
                Err(message) => pool_type_named(value@) is None && message@ == invalid_pool_type_message(),
            },
    {
        PoolTypeFilter::parse(value)
    }
}

/// Every pool type's API value reads back as that pool type.
pub proof fn lemma_pool_type_round_trip(kind: PoolTypeFilter)
    ensures
        pool_type_named(kind.api_text()) == Some(kind),
{
    reveal_strlit("automation");
    reveal_strlit("deployment");
    text::lemma_plain_word_fixed(kind.api_text());
}

} // verus!
