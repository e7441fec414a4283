//! What each command does, decided from its arguments, and the messages that
//! report the outcome.

use vstd::prelude::*;
use crate::access_level::AccessLevel;
use crate::auth::{expiry_of, DeviceCodeResponse, TokenResponse};
use crate::cli::{Commands, LoginArgs, PoolsCommand, ProjectsCommand, UserSelectorArgs, UsersCommand};
use crate::credentials::StoredCredential;
use crate::error::AdoctlError;
use crate::identity::UserIdentifier;
use crate::pool_type::PoolTypeFilter;
use crate::project_state::ProjectStateFilter;
use crate::text;

verus! {

/// The operation a command line asks for, with its arguments checked.
#[derive(Debug, Clone)]
pub enum Action {
    Login(LoginArgs),
    ListUsers { access_level: Option<AccessLevel>, search: Option<String> },
    GetUser { user: UserIdentifier, include_projects: bool },
    SetAccess { user: UserIdentifier, access_level: AccessLevel },
    ListProjects { state: ProjectStateFilter, search: Option<String> },
    AddUser { project: String, user: UserIdentifier, group: String },
    RemoveUser { project: String, user: UserIdentifier, group: String },
    ListPools { pool_type: Option<PoolTypeFilter> },
    ListAgents { pool: String },
    ListJobs { pool: String },
}

/// Whether `r` is the user that `selector` names, or the refusal of it.
pub open spec fn selection(selector: UserSelectorArgs, r: Result<UserIdentifier, AdoctlError>) -> bool {
    UserIdentifier::selects(selector.upn, selector.id, r)
}

/// Whether `r` is what `command` does: user selectors are resolved (a refused
/// selector is the error), everything else is handed on as given.
pub open spec fn plans(command: Commands, r: Result<Action, AdoctlError>) -> bool {
    match command {
        Commands::Login(args) => r == Ok::<Action, AdoctlError>(Action::Login(args)),
        Commands::Users(UsersCommand::List(args)) => r == Ok::<Action, AdoctlError>(
            Action::ListUsers { access_level: args.access_level, search: args.search },
        ),
        Commands::Users(UsersCommand::Get(args)) => match r {
            Ok(Action::GetUser { user, include_projects }) => selection(args.user, Ok(user))
                && include_projects == args.include_projects,
            Err(e) => selection(args.user, Err(e)),
            _ => false,
        },
        Commands::Users(UsersCommand::SetAccess(args)) => match r {
            Ok(Action::SetAccess { user, access_level }) => selection(args.user, Ok(user))
                && access_level == args.access_level,
            Err(e) => selection(args.user, Err(e)),
            _ => false,
        },
        Commands::Projects(ProjectsCommand::List(args)) => r == Ok::<Action, AdoctlError>(
            Action::ListProjects { state: args.state, search: args.search },
        ),
        Commands::Projects(ProjectsCommand::AddUser(args)) => match r {
            Ok(Action::AddUser { project, user, group }) => selection(args.user, Ok(user))
                && project == args.project && group == args.group,
            Err(e) => selection(args.user, Err(e)),
            _ => false,
        },
        Commands::Projects(ProjectsCommand::RemoveUser(args)) => match r {
            Ok(Action::RemoveUser { project, user, group }) => selection(args.user, Ok(user))
                && project == args.project && group == args.group,
            Err(e) => selection(args.user, Err(e)),
            _ => false,
        },
        Commands::Pools(PoolsCommand::List(args)) => r == Ok::<Action, AdoctlError>(
            Action::ListPools { pool_type: args.pool_type },
        ),
        Commands::Pools(PoolsCommand::Agents(args)) => r == Ok::<Action, AdoctlError>(
            Action::ListAgents { pool: args.pool },
        ),
        Commands::Pools(PoolsCommand::Jobs(args)) => r == Ok::<Action, AdoctlError>(
            Action::ListJobs { pool: args.pool },
        ),
    }
}

/// Decides what a command does. Only the user selectors can be refused.
pub fn plan_command(command: Commands) -> (r: Result<Action, AdoctlError>)
    ensures
        plans(command, r),
{
    match command {
        Commands::Login(args) => Ok(Action::Login(args)),
        Commands::Users(UsersCommand::List(args)) => Ok(
            Action::ListUsers { access_level: args.access_level, search: args.search },
        ),
        Commands::Users(UsersCommand::Get(args)) => {
            let user = UserIdentifier::from_parts(args.user.upn, args.user.id)?;
            Ok(Action::GetUser { user, include_projects: args.include_projects })
        },
        Commands::Users(UsersCommand::SetAccess(args)) => {
            let user = UserIdentifier::from_parts(args.user.upn, args.user.id)?;
            Ok(Action::SetAccess { user, access_level: args.access_level })
        },
        Commands::Projects(ProjectsCommand::List(args)) => Ok(
            Action::ListProjects { state: args.state, search: args.search },
        ),
        Commands::Projects(ProjectsCommand::AddUser(args)) => {
            let user = UserIdentifier::from_parts(args.user.upn, args.user.id)?;
            Ok(Action::AddUser { project: args.project, user, group: args.group })
        },
        Commands::Projects(ProjectsCommand::RemoveUser(args)) => {
            let user = UserIdentifier::from_parts(args.user.upn, args.user.id)?;
            Ok(Action::RemoveUser { project: args.project, user, group: args.group })
        },
        Commands::Pools(PoolsCommand::List(args)) => Ok(Action::ListPools { pool_type: args.pool_type }),
        Commands::Pools(PoolsCommand::Agents(args)) => Ok(Action::ListAgents { pool: args.pool }),
        Commands::Pools(PoolsCommand::Jobs(args)) => Ok(Action::ListJobs { pool: args.pool }),
    }
}

/// The report of `user set-access`.
pub open spec fn set_access_text(upn: Seq<char>, level: AccessLevel) -> Seq<char> {
    "已將 "@ + upn + " 的 accessLevel 設定為 "@ + level.display_text() + "。"@
}

pub fn set_access_message(upn: &str, level: AccessLevel) -> (r: String)
    ensures
        r@ == set_access_text(upn@, level),
{
    let mut out = "已將 ".to_owned();
    out.append(upn);
    out.append(" 的 accessLevel 設定為 ");
    out.append(level.display_name());
    out.append("。");
    out
}

/// The report of `project add-user` (`added`) or `project remove-user`.
pub open spec fn membership_text(user: Seq<char>, project: Seq<char>, group: Seq<char>, added: bool) -> Seq<char> {
    if added {
        "已將 "@ + user + " 加入專案 "@ + project + " 的 "@ + group + " 群組。"@
    } else {
        "已將 "@ + user + " 從專案 "@ + project + " 的 "@ + group + " 群組移除。"@
    }
}

pub fn membership_message(user: &UserIdentifier, project: &str, group: &str, added: bool) -> (r: String)
    ensures
        r@ == membership_text(user.value_text(), project@, group@, added),
{
    let mut out = "已將 ".to_owned();
    out.append(user.label());
    if added {
        out.append(" 加入專案 ");
        out.append(project);
        out.append(" 的 ");
        out.append(group);
        out.append(" 群組。");
    } else {
        out.append(" 從專案 ");
        out.append(project);
        out.append(" 的 ");
        out.append(group);
        out.append(" 群組移除。");
    }
    out
}

/// The report of a successful login.
pub open spec fn login_success_text(
    organization: Seq<char>,
    profile: Seq<char>,
    credential: StoredCredential,
    no_store: bool,
) -> Seq<char> {
    "登入成功：organization="@ + organization + "，profile="@ + profile + "，方式="@
        + credential.summary_text() + if no_store {
        "（未保存）"@
    } else {
        ""@
    }
}

pub fn login_success_message(
    organization: &str,
    profile: &str,
    credential: &StoredCredential,
    no_store: bool,
) -> (r: String)
    ensures
        r@ == login_success_text(organization@, profile@, *credential, no_store),
{
    let mut out = "登入成功：organization=".to_owned();
    out.append(organization);
    out.append("，profile=");
    out.append(profile);
    out.append("，方式=");
    out.append(credential.summary());
    if no_store {
        out.append("（未保存）");
    } else {
        proof {
            reveal_strlit("");
        }
        assert(out@ + ""@ =~= out@);
    }
    out
}

/// The PAT for `login --method pat` before anyone is asked: the `--pat` value
/// trimmed when given, else the PAT found in the environment. `None` means
/// the user is asked for one.
pub open spec fn pat_choice(arg: Option<String>, from_environment: Option<String>) -> Option<Seq<char>> {
    match arg {
        Some(token) => Some(text::trim(token@)),
        None => match from_environment {
            Some(token) => Some(token@),
            None => None,
        },
    }
}

pub fn login_pat_token(arg: &Option<String>, from_environment: Option<String>) -> (r: Option<String>)
    ensures
        match r {
            Some(token) => pat_choice(*arg, from_environment) == Some(token@),
            None => pat_choice(*arg, from_environment) is None,
        },
{
    match arg {
        Some(token) => Some(text::trimmed(token.as_str())),
        None => from_environment,
    }
}

/// The refusal of an empty PAT.
pub open spec fn empty_pat_text() -> Seq<char> {
    "PAT 不可為空。"@
}

/// The PAT credential for `token`; an empty token is an `Authentication` error.
pub fn pat_credential(token: String) -> (r: Result<StoredCredential, AdoctlError>)
    ensures
        token@.len() == 0 ==> (r matches Err(AdoctlError::Authentication(m)) && m@ == empty_pat_text()),
        token@.len() > 0 ==> r == Ok::<StoredCredential, AdoctlError>(StoredCredential::Pat { token }),
{
    if token.as_str().is_empty() {
        Err(AdoctlError::Authentication("PAT 不可為空。".to_owned()))
    } else {
        Ok(StoredCredential::Pat { token })
    }
}

/// The refusal of a device-code login without a client id.
pub open spec fn missing_client_id_text() -> Seq<char> {
    "device-code 登入需要 --device-client-id 或 ADOCTL_DEVICE_CLIENT_ID。"@
}

/// The client id that a device-code login needs.
pub fn device_client_id(arg: &Option<String>) -> (r: Result<String, AdoctlError>)
    ensures
        match arg {
            Some(id) => r matches Ok(v) && v@ == id@,
            None => r matches Err(AdoctlError::Authentication(m)) && m@ == missing_client_id_text(),
        },
{
    match arg {
        Some(id) => Ok(id.clone()),
        None => Err(
            AdoctlError::Authentication(
                "device-code 登入需要 --device-client-id 或 ADOCTL_DEVICE_CLIENT_ID。".to_owned(),
            ),
        ),
    }
}

/// What the user is told to do: the service's own message, else where to go
/// and which code to enter.
pub open spec fn device_prompt_text(response: DeviceCodeResponse) -> Seq<char> {
    match response.message {
        Some(message) => message@,
        None => "請開啟 "@ + response.verification_uri@ + "，並輸入代碼 "@ + response.user_code@
            + " 完成登入。"@,
    }
}

pub fn device_code_prompt(response: &DeviceCodeResponse) -> (r: String)
    ensures
        r@ == device_prompt_text(*response),
{
    match &response.message {
        Some(message) => message.clone(),
        None => {
            let mut out = "請開啟 ".to_owned();
            out.append(response.verification_uri.as_str());
            out.append("，並輸入代碼 ");
            out.append(response.user_code.as_str());
            out.append(" 完成登入。");
            out
        },
    }
}

/// Seconds between polls: the service's interval, 5 when it gave none.
pub fn device_poll_interval(response: &DeviceCodeResponse) -> (r: u64)
    ensures
        r == match response.interval {
            Some(seconds) => seconds,
            None => 5,
        },
{
    match response.interval {
        Some(seconds) => seconds,
        None => 5,
    }
}

/// The refusal of a token answer without a refresh token.
pub open spec fn missing_refresh_token_text() -> Seq<char> {
    "device-code 登入沒有回傳 refresh token。"@
}

/// The credential that a finished device-code login saves, with the token
/// received at `now`; without a refresh token it is an `Authentication` error.
pub fn device_code_credential(client_id: String, tenant: String, token: TokenResponse, now: u64) -> (r: Result<
    StoredCredential,
    AdoctlError,
>)
    ensures
        match token.refresh_token {
            Some(refresh) => r == Ok::<StoredCredential, AdoctlError>(
                StoredCredential::DeviceCode {
                    client_id,
                    tenant,
                    refresh_token: refresh,
                    access_token: Some(token.access_token),
                    expires_at: expiry_of(now, token.expires_in),
                },
            ),
            None => r matches Err(AdoctlError::Authentication(m)) && m@ == missing_refresh_token_text(),
        },
{
    let expires_at = crate::auth::expires_at(now, token.expires_in);
    match token.refresh_token {
        Some(refresh) => Ok(
            StoredCredential::DeviceCode {
                client_id,
                tenant,
                refresh_token: refresh,
                access_token: Some(token.access_token),
                expires_at,
            },
        ),
        None => Err(AdoctlError::Authentication("device-code 登入沒有回傳 refresh token。".to_owned())),
    }
}

} // verus!
