//! The project states by which projects can be listed.

use vstd::prelude::*;
use crate::text;

verus! {

/// The `stateFilter` of the project list.
#[derive(Debug, Clone, Copy, PartialEq, Eq, Structural)]
pub enum ProjectStateFilter {
    All,
    New,
    CreatePending,
    WellFormed,
    Deleting,
}

impl Default for ProjectStateFilter {
    fn default() -> (r: Self)
        ensures
            r == ProjectStateFilter::All,
    {
        ProjectStateFilter::All
    }
}

/// The message of a rejected project state value.
pub open spec fn invalid_project_state_message() -> Seq<char> {
    "專案狀態無效；可用值：all、new、create-pending、well-formed、deleting"@
}

/// The project state that a command-line value names, if any.
pub open spec fn project_state_named(value: Seq<char>) -> Option<ProjectStateFilter> {
    let key = text::dashed(value);
    if key == "all"@ {
        Some(ProjectStateFilter::All)
    } else if key == "new"@ {
        Some(ProjectStateFilter::New)
    } else if key == "create-pending"@ || key == "createpending"@ {
        Some(ProjectStateFilter::CreatePending)
    } else if key == "well-formed"@ || key == "wellformed"@ {
        Some(ProjectStateFilter::WellFormed)
    } else if key == "deleting"@ {
        Some(ProjectStateFilter::Deleting)
    } else {
        None
    }
}

impl ProjectStateFilter {
    /// The command-line spelling.
    pub open spec fn cli_text(self) -> Seq<char> {
        match self {
            ProjectStateFilter::All => "all"@,
            ProjectStateFilter::New => "new"@,
            ProjectStateFilter::CreatePending => "create-pending"@,
            ProjectStateFilter::WellFormed => "well-formed"@,
            ProjectStateFilter::Deleting => "deleting"@,
        }
    }

    /// The `stateFilter` query value.
    pub open spec fn api_text(self) -> Seq<char> {
        match self {
            ProjectStateFilter::All => "all"@,
            ProjectStateFilter::New => "new"@,
            ProjectStateFilter::CreatePending => "createPending"@,
            ProjectStateFilter::WellFormed => "wellFormed"@,
            ProjectStateFilter::Deleting => "deleting"@,
        }
    }

    pub fn cli_name(self) -> (r: &'static str)
        ensures
            r@ == self.cli_text(),
    {
        match self {
            ProjectStateFilter::All => "all",
            ProjectStateFilter::New => "new",
            ProjectStateFilter::CreatePending => "create-pending",
            ProjectStateFilter::WellFormed => "well-formed",
            ProjectStateFilter::Deleting => "deleting",
        }
    }

    pub fn api_value(self) -> (r: &'static str)
        ensures
            r@ == self.api_text(),
    {
        match self {
            ProjectStateFilter::All => "all",
            ProjectStateFilter::New => "new",
            ProjectStateFilter::CreatePending => "createPending",
            ProjectStateFilter::WellFormed => "wellFormed",
            ProjectStateFilter::Deleting => "deleting",
        }
    }

    /// Reads a command-line value: the command-line or the API spelling, in any
    /// ASCII case, trimmed, with `_` read as `-`.
    pub fn parse(value: &str) -> (r: Result<ProjectStateFilter, String>)
        ensures
            match r {
                Ok(state) => project_state_named(value@) == Some(state),
                Err(message) => project_state_named(value@) is None
                    && message@ == invalid_project_state_message(),
            },
    {
        let key = text::dashed_chars(value);
        if text::spells(&key, "all") {
            Ok(ProjectStateFilter::All)
        } else if text::spells(&key, "new") {
            Ok(ProjectStateFilter::New)
        } else if text::spells(&key, "create-pending") || text::spells(&key, "createpending") {
            Ok(ProjectStateFilter::CreatePending)
        } else if text::spells(&key, "well-formed") || text::spells(&key, "wellformed") {
            Ok(ProjectStateFilter::WellFormed)
        } else if text::spells(&key, "deleting") {
            Ok(ProjectStateFilter::Deleting)
        } else {
            Err("專案狀態無效；可用值：all、new、create-pending、well-formed、deleting".to_owned())
        }
    }
}

impl std::str::FromStr for ProjectStateFilter {
    type Err = String;

    fn from_str(value: &str) -> (r: Result<Self, Self::Err>)
        ensures
            match r {
                Ok(state) => project_state_named(value@) == Some(state),
                Err(message) => project_state_named(value@) is None && message@ == invalid_project_state_message(),
            },
    {
        ProjectStateFilter::parse(value)
    }
}

/// Both the command-line and the API spelling of a state read back as that state.
pub proof fn lemma_project_state_round_trip(state: ProjectStateFilter)
    ensures
        project_state_named(state.cli_text()) == Some(state),
        project_state_named(state.api_text()) == Some(state),
{
    reveal_strlit("all");
    reveal_strlit("new");
    reveal_strlit("create-pending");
    reveal_strlit("createpending");
    reveal_strlit("createPending");
    reveal_strlit("well-formed");
    reveal_strlit("wellformed");
    reveal_strlit("wellFormed");
    reveal_strlit("deleting");
    text::lemma_plain_word_fixed(state.cli_text());
    let api = state.api_text();
    if state == ProjectStateFilter::CreatePending || state == ProjectStateFilter::WellFormed {
        assert(!text::is_space(api[0]));
        assert(!text::is_space(api.last()));
        assert(text::trim_start(api) == api);
        assert(text::trim(api) == api);
        if state == ProjectStateFilter::CreatePending {
            assert(text::ascii_lower(api) =~= "createpending"@);
            text::lemma_plain_word_fixed("createpending"@);
            assert(text::dashed(api) == "createpending"@);
        } else {
            assert(text::ascii_lower(api) =~= "wellformed"@);
            text::lemma_plain_word_fixed("wellformed"@);
            assert(text::dashed(api) == "wellformed"@);
        }
    } else {
        text::lemma_plain_word_fixed(api);
    }
}

} // verus!
