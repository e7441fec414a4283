//! The command line as plain data, the option values it accepts, and which help
//! page a bare command group asks for.

use vstd::prelude::*;
use crate::access_level::AccessLevel;
use crate::pool_type::PoolTypeFilter;
use crate::project_state::ProjectStateFilter;
use crate::text;

verus! {

/// How to authenticate.
#[derive(Debug, Clone, Copy, PartialEq, Eq, Structural)]
pub enum AuthMethodArg {
    Pat,
    AzureCli,
    DeviceCode,
}

/// How results are written.
#[derive(Debug, Clone, Copy, PartialEq, Eq, Structural)]
pub enum OutputArg {
    Table,
    Json,
}

/// The message of a rejected authentication method value.
pub open spec fn invalid_auth_method_message() -> Seq<char> {
    "認證方式無效；可用值：pat、azure-cli、device-code"@
}

/// The message of a rejected output format value.
pub open spec fn invalid_output_message() -> Seq<char> {
    "輸出格式無效；可用值：table、json"@
}

/// The authentication method that a command-line value names, if any.
pub open spec fn auth_method_named(value: Seq<char>) -> Option<AuthMethodArg> {
    let key = text::folded(value);
    if key == "pat"@ {
        Some(AuthMethodArg::Pat)
    } else if key == "azure-cli"@ {
        Some(AuthMethodArg::AzureCli)
    } else if key == "device-code"@ {
        Some(AuthMethodArg::DeviceCode)
    } else {
        None
    }
}

/// The output format that a command-line value names, if any.
pub open spec fn output_named(value: Seq<char>) -> Option<OutputArg> {
    let key = text::folded(value);
    if key == "table"@ {
        Some(OutputArg::Table)
    } else if key == "json"@ {
        Some(OutputArg::Json)
    } else {
        None
    }
}

impl AuthMethodArg {
    /// The command-line spelling.
    pub open spec fn cli_text(self) -> Seq<char> {
        match self {
            AuthMethodArg::Pat => "pat"@,
            AuthMethodArg::AzureCli => "azure-cli"@,
            AuthMethodArg::DeviceCode => "device-code"@,
        }
    }

    /// The command-line spelling, as `Display` writes it.
    pub fn as_text(self) -> (r: &'static str)
        ensures
            r@ == self.cli_text(),
    {
        match self {
            AuthMethodArg::Pat => "pat",
            AuthMethodArg::AzureCli => "azure-cli",
            AuthMethodArg::DeviceCode => "device-code",
        }
    }

    /// Reads a command-line value, trimmed and in any ASCII case.
    pub fn parse(value: &str) -> (r: Result<AuthMethodArg, String>)
        ensures
            match r {
                Ok(method) => auth_method_named(value@) == Some(method),
                Err(message) => auth_method_named(value@) is None
                    && message@ == invalid_auth_method_message(),
            },
    {
        let key = text::folded_chars(value);
        if text::spells(&key, "pat") {
            Ok(AuthMethodArg::Pat)
        } else if text::spells(&key, "azure-cli") {
            Ok(AuthMethodArg::AzureCli)
        } else if text::spells(&key, "device-code") {
            Ok(AuthMethodArg::DeviceCode)
        } else {
            Err("認證方式無效；可用值：pat、azure-cli、device-code".to_owned())
        }
    }
}

impl std::str::FromStr for AuthMethodArg {
    type Err = String;

    fn from_str(value: &str) -> (r: Result<Self, Self::Err>)
        ensures
            match r {
                Ok(method) => auth_method_named(value@) == Some(method),
                Err(message) => auth_method_named(value@) is None
                    && message@ == invalid_auth_method_message(),
            },
    {
        AuthMethodArg::parse(value)
    }
}

impl OutputArg {
    /// The command-line spelling.
    pub open spec fn cli_text(self) -> Seq<char> {
        match self {
            OutputArg::Table => "table"@,
            OutputArg::Json => "json"@,
        }
    }

    /// The command-line spelling, as `Display` writes it.
    pub fn as_text(self) -> (r: &'static str)
        ensures
            r@ == self.cli_text(),
    {
        match self {
            OutputArg::Table => "table",
            OutputArg::Json => "json",
        }
    }

    /// Reads a command-line value, trimmed and in any ASCII case.
    pub fn parse(value: &str) -> (r: Result<OutputArg, String>)
        ensures
            match r {
                Ok(output) => output_named(value@) == Some(output),
                Err(message) => output_named(value@) is None && message@ == invalid_output_message(),
            },
    {
        let key = text::folded_chars(value);
        if text::spells(&key, "table") {
            Ok(OutputArg::Table)
        } else if text::spells(&key, "json") {
            Ok(OutputArg::Json)
        } else {
            Err("輸出格式無效；可用值：table、json".to_owned())
        }
    }
}

impl std::str::FromStr for OutputArg {
    type Err = String;

    fn from_str(value: &str) -> (r: Result<Self, Self::Err>)
        ensures
            match r {
                Ok(output) => output_named(value@) == Some(output),
                Err(message) => output_named(value@) is None && message@ == invalid_output_message(),
            },
    {
        OutputArg::parse(value)
    }
}

/// Every method's and format's spelling reads back as itself.
pub proof fn lemma_cli_values_round_trip(method: AuthMethodArg, output: OutputArg)
    ensures
        auth_method_named(method.cli_text()) == Some(method),
        output_named(output.cli_text()) == Some(output),
{
    reveal_strlit("pat");
    reveal_strlit("azure-cli");
    reveal_strlit("device-code");
    reveal_strlit("table");
    reveal_strlit("json");
    text::lemma_plain_word_fixed(method.cli_text());
    text::lemma_plain_word_fixed(output.cli_text());
}

/// The whole command line.
#[derive(Debug, Clone)]
pub struct Cli {
    pub org: Option<String>,
    pub profile: String,
    pub auth_method: Option<AuthMethodArg>,
    pub output: OutputArg,
    pub base_url: Option<String>,
    pub debug: bool,
    pub help: Option<bool>,
    pub version: Option<bool>,
    pub command: Commands,
}

/// The command groups.
#[derive(Debug, Clone)]
pub enum Commands {
    Login(LoginArgs),
    Users(UsersCommand),
    Projects(ProjectsCommand),
    Pools(PoolsCommand),
}

/// `login`.
#[derive(Debug, Clone)]
pub struct LoginArgs {
    pub method: AuthMethodArg,
    pub pat: Option<String>,
    pub no_store: bool,
    pub open_browser: bool,
    pub device_client_id: Option<String>,
    pub tenant: String,
}

/// `user ...`.
#[derive(Debug, Clone)]
pub enum UsersCommand {
    List(UsersListArgs),
    Get(UsersGetArgs),
    SetAccess(UsersSetAccessArgs),
}

/// `user list`.
#[derive(Debug, Clone)]
pub struct UsersListArgs {
    pub access_level: Option<AccessLevel>,
    pub search: Option<String>,
}

/// `user get`.
#[derive(Debug, Clone)]
pub struct UsersGetArgs {
    pub user: UserSelectorArgs,
    pub include_projects: bool,
}

/// `user set-access`.
#[derive(Debug, Clone)]
pub struct UsersSetAccessArgs {
    pub user: UserSelectorArgs,
    pub access_level: AccessLevel,
}

/// `project ...`.
#[derive(Debug, Clone)]
pub enum ProjectsCommand {
    List(ProjectsListArgs),
    AddUser(ProjectMembershipArgs),
    RemoveUser(ProjectMembershipArgs),
}

/// `project list`.
#[derive(Debug, Clone)]
pub struct ProjectsListArgs {
    pub state: ProjectStateFilter,
    pub search: Option<String>,
}

/// `project add-user` and `project remove-user`.
#[derive(Debug, Clone)]
pub struct ProjectMembershipArgs {
    pub project: String,
    pub user: UserSelectorArgs,
    pub group: String,
}

/// `pool ...`.
#[derive(Debug, Clone)]
pub enum PoolsCommand {
    List(PoolsListArgs),
    Agents(PoolSelectorArgs),
    Jobs(PoolSelectorArgs),
}

/// `pool list`.
#[derive(Debug, Clone)]
pub struct PoolsListArgs {
    pub pool_type: Option<PoolTypeFilter>,
}

/// `pool agents` and `pool jobs`.
#[derive(Debug, Clone)]
pub struct PoolSelectorArgs {
    pub pool: String,
}

/// `--upn` or `--id`.
#[derive(Debug, Clone)]
pub struct UserSelectorArgs {
    pub upn: Option<String>,
    pub id: Option<String>,
}

/// The help page that a command line without a command asks for.
#[derive(Debug, Clone, Copy, PartialEq, Eq, Structural)]
pub enum HelpTopic {
    Root,
    User,
    Project,
    Pool,
}

/// Global options that take the next argument as their value.
pub open spec fn takes_value(arg: Seq<char>) -> bool {
    ||| arg == "--org"@
    ||| arg == "--profile"@
    ||| arg == "--auth"@
    ||| arg == "--output"@
    ||| arg == "-o"@
    ||| arg == "--base-url"@
}

/// Global options written as one argument: `--debug` or `--name=value`.
pub open spec fn is_single_global(arg: Seq<char>) -> bool {
    ||| arg == "--debug"@
    ||| text::has_prefix(arg, "--org="@)
    ||| text::has_prefix(arg, "--profile="@)
    ||| text::has_prefix(arg, "--auth="@)
    ||| text::has_prefix(arg, "--output="@)
    ||| text::has_prefix(arg, "--base-url="@)
}

/// The arguments from `i` on that are not global options, appended to `acc`;
/// `None` when a global option lacks its value.
pub open spec fn command_path_from(args: Seq<Seq<char>>, i: int, acc: Seq<Seq<char>>) -> Option<
    Seq<Seq<char>>,
>
    decreases args.len() - i,
{
    if i < 0 || i >= args.len() {
        Some(acc)
    } else if takes_value(args[i]) {
        if i + 2 > args.len() {
            None
        } else {
            command_path_from(args, i + 2, acc)
        }
    } else if is_single_global(args[i]) {
        command_path_from(args, i + 1, acc)
    } else {
        command_path_from(args, i + 1, acc.push(args[i]))
    }
}

/// The arguments that are not global options.
pub open spec fn command_path(args: Seq<Seq<char>>) -> Option<Seq<Seq<char>>> {
    command_path_from(args, 0, Seq::empty())
}

/// An argument that asks for help or the version.
pub open spec fn is_help_or_version(arg: Seq<char>) -> bool {
    arg == "-h"@ || arg == "--help"@ || arg == "-V"@ || arg == "--version"@
}

/// The help page to show for `args`, if they hold no command to run.
pub open spec fn help_topic_of(args: Seq<Seq<char>>) -> Option<HelpTopic> {
    if exists|i: int| 0 <= i < args.len() && is_help_or_version(#[trigger] args[i]) {
        None
    } else {
        match command_path(args) {
            None => None,
            Some(path) => if path.len() == 0 {
                Some(HelpTopic::Root)
            } else if path.len() == 1 && path[0] == "user"@ {
                Some(HelpTopic::User)
            } else if path.len() == 1 && path[0] == "project"@ {
                Some(HelpTopic::Project)
            } else if path.len() == 1 && path[0] == "pool"@ {
                Some(HelpTopic::Pool)
            } else {
                None
            },
        }
    }
}

/// The arguments that are not global options (with their values), or `None`
/// when the last global option lacks its value.
pub fn command_path_without_global_args(args: &Vec<String>) -> (r: Option<Vec<String>>)
    ensures
        r.deep_view() == command_path(args.deep_view()),
{
    let ghost a = args.deep_view();
    let mut path: Vec<String> = Vec::new();
    let mut index: usize = 0;
    assert(path.deep_view() =~= Seq::<Seq<char>>::empty());
    while index < args.len()
        invariant
            a == args.deep_view(),
            index <= args.len(),
            command_path(a) == command_path_from(a, index as int, path.deep_view()),
        decreases args.len() - index,
    {
        let arg = text::chars_of(args[index].as_str());
        assert(arg@ == a[index as int]);
        if text::spells(&arg, "--org") || text::spells(&arg, "--profile") || text::spells(
            &arg,
            "--auth",
        ) || text::spells(&arg, "--output") || text::spells(&arg, "-o") || text::spells(
            &arg,
            "--base-url",
        ) {
            if args.len() - index < 2 {
                return None;
            }
            index += 2;
            continue;
        }
        if text::spells(&arg, "--debug") || text::chars_start_with(&arg, &text::chars_of("--org="))
            || text::chars_start_with(&arg, &text::chars_of("--profile="))
            || text::chars_start_with(&arg, &text::chars_of("--auth="))
            || text::chars_start_with(&arg, &text::chars_of("--output="))
            || text::chars_start_with(&arg, &text::chars_of("--base-url=")) {
            index += 1;
            continue;
        }
        let ghost before = path.deep_view();
        path.push(text::string_of(&arg));
        assert(path.deep_view() =~= before.push(a[index as int]));
        index += 1;
    }
    assert(Some(path.deep_view()) == command_path(a));
    Some(path)
}

/// Which help page to show when `args` (without the program name) name no
/// command to run; `None` when they ask for help or the version themselves or
/// name a command.
pub fn help_topic_if_missing_command(args: &Vec<String>) -> (r: Option<HelpTopic>)
    ensures
        r == help_topic_of(args.deep_view()),
{
    let ghost a = args.deep_view();
    let mut i: usize = 0;
    while i < args.len()
        invariant
            a == args.deep_view(),
            i <= args.len(),
            forall|j: int| 0 <= j < i ==> !is_help_or_version(#[trigger] a[j]),
        decreases args.len() - i,
    {
        let arg = text::chars_of(args[i].as_str());
        assert(arg@ == a[i as int]);
        if text::spells(&arg, "-h") || text::spells(&arg, "--help") || text::spells(&arg, "-V")
            || text::spells(&arg, "--version") {
            return None;
        }
        i += 1;
    }
    let path = match command_path_without_global_args(args) {
        None => { return None; },
        Some(p) => p,
    };
    if path.len() == 0 {
        return Some(HelpTopic::Root);
    }
    if path.len() != 1 {
        return None;
    }
    let only = text::chars_of(path[0].as_str());
    assert(only@ == path.deep_view()[0]);
    if text::spells(&only, "user") {
        Some(HelpTopic::User)
    } else if text::spells(&only, "project") {
        Some(HelpTopic::Project)
    } else if text::spells(&only, "pool") {
        Some(HelpTopic::Pool)
    } else {
        None
    }
}

/// The kinds of command-line refusal that get a message of their own.
#[derive(Debug, Clone, Copy, PartialEq, Eq, Structural)]
pub enum ParseFailure {
    UnknownArgument,
    InvalidValue,
    ValueValidation,
    MissingRequiredArgument,
    ArgumentConflict,
    DisplayHelp,
    DisplayVersion,
    Other,
}

/// The message for a refused command line; `None` where the parser's own
/// text (help or version) is shown.
pub open spec fn parse_failure_text(kind: ParseFailure) -> Option<Seq<char>> {
    match kind {
        ParseFailure::UnknownArgument => Some("參數無法辨識，請使用 --help 查看說明。"@),
        ParseFailure::InvalidValue | ParseFailure::ValueValidation => Some(
            "參數值無效，請使用 --help 查看可用值。"@,
        ),
        ParseFailure::MissingRequiredArgument => Some("缺少必要參數，請使用 --help 查看說明。"@),
        ParseFailure::ArgumentConflict => Some("參數彼此衝突，請檢查後重試。"@),
        ParseFailure::DisplayHelp | ParseFailure::DisplayVersion => None,
        ParseFailure::Other => Some("命令格式無效，請使用 --help 查看說明。"@),
    }
}

pub fn parse_failure_message(kind: ParseFailure) -> (r: Option<&'static str>)
    ensures
        match r {
            Some(m) => parse_failure_text(kind) == Some(m@),
            None => parse_failure_text(kind) is None,
        },
{
    match kind {
        ParseFailure::UnknownArgument => Some("參數無法辨識，請使用 --help 查看說明。"),
        ParseFailure::InvalidValue | ParseFailure::ValueValidation => Some(
            "參數值無效，請使用 --help 查看可用值。",
        ),
        ParseFailure::MissingRequiredArgument => Some("缺少必要參數，請使用 --help 查看說明。"),
        ParseFailure::ArgumentConflict => Some("參數彼此衝突，請檢查後重試。"),
        ParseFailure::DisplayHelp | ParseFailure::DisplayVersion => None,
        ParseFailure::Other => Some("命令格式無效，請使用 --help 查看說明。"),
    }
}

} // verus!
