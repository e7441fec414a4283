use adoctl::access_level::AccessLevel;
use adoctl::auth::{
    authorization_step, azure_cli_token_from_output, basic_pat_header_text, bearer_header_text,
    device_code_form, expires_at, load_stored_or_env_credential, oauth_url, refresh_token_form,
    refreshed_credential, AuthorizationStep, DevicePoll, OAuthError, PollReply, TokenResponse,
};
use adoctl::cli::{
    parse_failure_message, ParseFailure,
    command_path_without_global_args, help_topic_if_missing_command, AuthMethodArg, Commands, HelpTopic,
    OutputArg, PoolSelectorArgs, PoolsCommand, ProjectMembershipArgs, ProjectsCommand, UserSelectorArgs,
    UsersCommand, UsersGetArgs,
};
use adoctl::commands::{
    device_client_id, device_code_credential, device_code_prompt, device_poll_interval, login_pat_token,
    login_success_message, membership_message, pat_credential, plan_command, set_access_message, Action,
};
use adoctl::config::{organization_from_url_parts, AdoService, Organization};
use adoctl::credentials::{CredentialKey, CredentialStore, MemoryCredentialStore, StoredCredential};
use adoctl::debug::{preview_text, summarize_json, JsonObjectShape, JsonScalar, JsonShape};
use adoctl::error::{map_not_found, AdoctlError};
use adoctl::identity::UserIdentifier;
use adoctl::output::{
    agent_status_label, boolean_label, job_display_name, job_result_label, pool_type_label,
    render_agent_pool_table, render_project_table, render_user_table, value_or_dash,
};
use adoctl::packaging::{artifact_file_name, executable_name, parse_targets, task_from_args, Task};
use adoctl::pools::{
    pool_id_from_text, select_pool_id, AgentPool, JobListing, JobRequest, OrchestrationOwner,
};
use adoctl::projects::{group_from_descriptor, membership_request, project_request, ProjectListing, Project};
use adoctl::project_state::ProjectStateFilter;
use adoctl::request::{extract_api_message, response_outcome, HttpMethod};
use adoctl::table::render_table;
use adoctl::text::decimal_text;
use adoctl::users::{find_user_by_upn, select_users, UserEntitlement, UserListing};

fn user(upn: &str, name: &str, level: &str) -> UserEntitlement {
    let mut u = UserEntitlement::default();
    u.id = format!("id-{upn}");
    u.user.principal_name = upn.to_owned();
    u.user.display_name = name.to_owned();
    u.access_level.account_license_type = level.to_owned();
    u
}

fn strings(values: &[&str]) -> Vec<String> {
    values.iter().map(|v| v.to_string()).collect()
}

#[test]
fn basic_header_encodes_colon_and_token() {
    assert_eq!(basic_pat_header_text("secret"), "Basic OnNlY3JldA==");
    assert_eq!(basic_pat_header_text("abcd"), "Basic OmFiY2Q=");
    assert_eq!(basic_pat_header_text("ab"), "Basic OmFi");
    assert_eq!(bearer_header_text("abc"), "Bearer abc");
}

#[test]
fn cached_device_token_is_used_until_a_minute_before_expiry() {
    let credential = StoredCredential::DeviceCode {
        client_id: "client".into(),
        tenant: "organizations".into(),
        refresh_token: "refresh".into(),
        access_token: Some("access".into()),
        expires_at: Some(1_000),
    };
    assert_eq!(authorization_step(&credential, 900), AuthorizationStep::Header("Bearer access".into()));
    assert_eq!(
        authorization_step(&credential, 940),
        AuthorizationStep::Refresh {
            tenant: "organizations".into(),
            client_id: "client".into(),
            refresh_token: "refresh".into()
        }
    );
    assert_eq!(authorization_step(&StoredCredential::AzureCli, 0), AuthorizationStep::RunAzureCli);
}

#[test]
fn refresh_keeps_old_refresh_token_when_none_returned() {
    let token = TokenResponse { access_token: "new".into(), refresh_token: None, expires_in: Some(3600) };
    let credential = refreshed_credential(&"client".into(), &"tenant".into(), &"old".into(), &token, 100);
    assert_eq!(
        credential,
        StoredCredential::DeviceCode {
            client_id: "client".into(),
            tenant: "tenant".into(),
            refresh_token: "old".into(),
            access_token: Some("new".into()),
            expires_at: Some(3700),
        }
    );
    assert_eq!(expires_at(u64::MAX - 1, Some(10)), Some(u64::MAX));
    assert_eq!(expires_at(5, None), None);
}

#[test]
fn azure_cli_output_is_trimmed_and_checked() {
    assert_eq!(azure_cli_token_from_output(true, b" token\n", b""), Ok("token".to_owned()));
    assert_eq!(
        azure_cli_token_from_output(false, b"", b" please run az login \n"),
        Err(AdoctlError::AzureCli("please run az login".into()))
    );
    assert_eq!(
        azure_cli_token_from_output(true, b"  \n", b""),
        Err(AdoctlError::AzureCli("Azure CLI 沒有回傳 access token，請先執行 az login。".into()))
    );
}

#[test]
fn device_polling_waits_slows_down_and_fails() {
    let mut poll = DevicePoll::start(1_000, 1, 900);
    assert_eq!(poll.interval, 5);
    assert!(poll.check_expiry(1_900).is_ok());
    assert_eq!(
        poll.check_expiry(1_901),
        Err(AdoctlError::Authentication("device code 登入逾時，請重新執行 login。".into()))
    );
    let pending = OAuthError { error: "authorization_pending".into(), error_description: None };
    assert_eq!(poll.after_error(400, &pending), PollReply::Wait(5));
    let slow = OAuthError { error: "slow_down".into(), error_description: None };
    assert_eq!(poll.after_error(400, &slow), PollReply::Wait(10));
    let denied = OAuthError { error: "access_denied".into(), error_description: Some(" denied by user ".into()) };
    assert_eq!(
        poll.after_error(400, &denied),
        PollReply::Fail(AdoctlError::Api { status: 400, message: "denied by user".into() })
    );
}

#[test]
fn oauth_endpoints_and_forms() {
    assert_eq!(
        oauth_url("organizations", "devicecode"),
        "https://login.microsoftonline.com/organizations/oauth2/v2.0/devicecode"
    );
    let form = device_code_form("client");
    assert_eq!(form[0], ("client_id".to_owned(), "client".to_owned()));
    assert_eq!(form[1].0, "scope");
    let refresh = refresh_token_form("client", "r1");
    assert_eq!(refresh[0], ("grant_type".to_owned(), "refresh_token".to_owned()));
    assert_eq!(refresh[2], ("refresh_token".to_owned(), "r1".to_owned()));
}

#[test]
fn environment_pat_wins_over_saved_login() {
    let org = Organization::parse("my-org", None).unwrap();
    let mut store = MemoryCredentialStore::new();
    let key = CredentialKey::new("my-org".into(), "default".into());
    store.save(&key, &StoredCredential::AzureCli).unwrap();
    let (credential, found_key) =
        load_stored_or_env_credential(&org, "default", None, None, Some(" env-pat ".into()), &store).unwrap();
    assert_eq!(credential, StoredCredential::Pat { token: "env-pat".into() });
    assert_eq!(found_key.account_name(), "my-org:default");
    let (saved, _) = load_stored_or_env_credential(&org, "default", None, None, None, &store).unwrap();
    assert_eq!(saved, StoredCredential::AzureCli);
    assert!(matches!(
        load_stored_or_env_credential(&org, "default", Some(AuthMethodArg::Pat), None, None, &store),
        Err(AdoctlError::Authentication(_))
    ));
    let empty = MemoryCredentialStore::new();
    assert_eq!(
        load_stored_or_env_credential(&org, "other", None, None, None, &empty).map(|(c, _)| c),
        Err(AdoctlError::NotLoggedIn)
    );
}

#[test]
fn exit_codes_follow_error_kind() {
    assert_eq!(AdoctlError::MissingOrganization.exit_code(), 2);
    assert_eq!(AdoctlError::Authentication("x".into()).exit_code(), 3);
    assert_eq!(AdoctlError::Api { status: 404, message: "x".into() }.exit_code(), 4);
    assert_eq!(AdoctlError::Api { status: 500, message: "x".into() }.exit_code(), 1);
    assert_eq!(AdoctlError::PoolNotFound("p".into()).exit_code(), 4);
    assert_eq!(AdoctlError::Http("x".into()).exit_code(), 1);
    assert_eq!(
        map_not_found(AdoctlError::Api { status: 404, message: "gone".into() }, AdoctlError::PoolNotFound("99".into())),
        AdoctlError::PoolNotFound("99".into())
    );
    assert_eq!(
        map_not_found(AdoctlError::Api { status: 500, message: "down".into() }, AdoctlError::PoolNotFound("99".into())),
        AdoctlError::Api { status: 500, message: "down".into() }
    );
}

#[test]
fn organization_from_parsed_parts() {
    let parts = |host: Option<&str>, segments: &[&str]| {
        Ok(("u".to_owned(), host.map(str::to_owned), segments.iter().map(|s| s.to_string()).collect()))
    };
    assert_eq!(
        organization_from_url_parts("https://dev.azure.com/x", parts(Some("DEV.azure.com"), &["", "x", "y"])),
        Ok("x".into())
    );
    assert_eq!(
        organization_from_url_parts("https://x.visualstudio.com", parts(Some("x.visualstudio.com"), &[""])),
        Ok("x".into())
    );
    assert_eq!(
        organization_from_url_parts("https://example.com/x", parts(Some("example.com"), &["x"])),
        Err(AdoctlError::InvalidOrganization("https://example.com/x".into()))
    );
    assert_eq!(
        organization_from_url_parts("https://dev.azure.com", parts(Some("dev.azure.com"), &[""])),
        Err(AdoctlError::InvalidOrganization("https://dev.azure.com".into()))
    );
    assert_eq!(
        organization_from_url_parts("http://", Err("empty host".into())),
        Err(AdoctlError::Url("empty host".into()))
    );
}

#[test]
fn organization_errors() {
    assert_eq!(Organization::parse("  ", None), Err(AdoctlError::InvalidOrganization("  ".into())));
    assert_eq!(Organization::parse("a/b", None), Err(AdoctlError::InvalidOrganization("a/b".into())));
    assert_eq!(Organization::parse(" my-org/ ", None).unwrap().name, "my-org");
    assert!(matches!(
        Organization::parse("https://example.com/my-org", None),
        Err(AdoctlError::InvalidOrganization(_))
    ));
    let org = Organization::parse("my-org", None).unwrap();
    assert_eq!(org.service_base_text(AdoService::Graph), "https://vssps.dev.azure.com/my-org/");
    assert_eq!(org.service_base_text(AdoService::Core), "https://dev.azure.com/my-org/");
    assert_eq!(org.service_base(AdoService::Core).unwrap(), "https://dev.azure.com/my-org/");
    let odd = Organization::parse("my-org", Some("not a url".into())).unwrap();
    assert!(matches!(odd.service_base(AdoService::Core), Err(AdoctlError::Url(_))));
}

#[test]
fn preview_collapses_white_space_and_cuts() {
    assert_eq!(preview_text("  a \n b\tc  ", 80), "a b c");
    assert_eq!(preview_text("abcdef", 3), "abc…");
    assert_eq!(preview_text("", 3), "");
}

#[test]
fn json_summary_reports_keys_sizes_and_token() {
    let shape = JsonShape::Object(JsonObjectShape {
        keys: strings(&["count", "value", "continuationToken"]),
        items_len: None,
        members_len: None,
        value_len: Some(2),
        count: Some(2),
        total_count: None,
        continuation_token: Some(Some(JsonScalar::Text("t-1".into()))),
    });
    assert_eq!(
        summarize_json(&shape),
        "keys=[count, value, continuationToken], value.len=2, count=2, continuationToken=t-1"
    );
    assert_eq!(summarize_json(&JsonShape::Array(3)), "array(len=3)");
    assert_eq!(summarize_json(&JsonShape::Scalar(JsonScalar::Bool(false))), "false");
    assert_eq!(summarize_json(&JsonShape::Scalar(JsonScalar::Null)), "null");
}

#[test]
fn api_messages_come_from_json_or_text() {
    assert_eq!(extract_api_message(r#"{"message":"Pool not found"}"#), "Pool not found");
    assert_eq!(extract_api_message(r#"{"error_description":"bad token"}"#), "bad token");
    assert_eq!(extract_api_message(r#"{"message":42,"error_description":"x"}"#), r#"{"message":42,"error_description":"x"}"#);
    assert_eq!(extract_api_message("  service unavailable \n"), "service unavailable");
    assert_eq!(response_outcome(204, ""), Ok(()));
    assert_eq!(
        response_outcome(500, r#"{"message":"service unavailable"}"#),
        Err(AdoctlError::Api { status: 500, message: "service unavailable".into() })
    );
}

#[test]
fn tables_pad_columns_and_trim_the_end() {
    let out = render_table(&strings(&["名稱", "Id"]), &vec![strings(&["Default", "1"])]);
    assert_eq!(out, "名稱      | Id\n--------|---\nDefault | 1");
}

#[test]
fn empty_tables_have_messages() {
    assert_eq!(render_user_table(&[]), "沒有符合條件的使用者。");
    assert_eq!(render_project_table(&[]), "沒有符合條件的專案。");
    assert_eq!(render_agent_pool_table(&[]), "沒有符合條件的代理程式集區。");
}

#[test]
fn agent_pool_table_shows_labels() {
    let pool = AgentPool {
        id: 42,
        name: "Default".into(),
        pool_type: "automation".into(),
        is_hosted: false,
        size: 2,
        target_size: None,
        auto_size: false,
        auto_provision: false,
    };
    let out = render_agent_pool_table(&[pool]);
    assert!(out.contains("Default | 42 | 自動化 | 否"));
    assert!(out.ends_with("| 2     | -"));
}

#[test]
fn labels() {
    assert_eq!(value_or_dash(Some("")), "-");
    assert_eq!(value_or_dash(Some("x")), "x");
    assert_eq!(boolean_label(true), "是");
    assert_eq!(pool_type_label("Deployment"), "部署");
    assert_eq!(pool_type_label("custom"), "custom");
    assert_eq!(agent_status_label("ONLINE"), "上線");
    assert_eq!(agent_status_label(""), "未知");
    assert_eq!(job_result_label(Some("SucceededWithIssues")), "成功但有問題");
    assert_eq!(job_result_label(Some("cancelled")), "已取消");
    assert_eq!(job_result_label(None), "-");
    let job = JobRequest {
        job_name: Some(String::new()),
        owner: Some(OrchestrationOwner { id: 1, name: "CI".into() }),
        ..JobRequest::default()
    };
    assert_eq!(job_display_name(&job), "CI");
    assert_eq!(job_display_name(&JobRequest::default()), "-");
}

#[test]
fn user_filters_and_exact_upn_lookup() {
    let users = vec![user("will@example.com", "Will", "express"), user("other@example.com", "Other", "stakeholder")];
    let basic = select_users(users.clone(), Some(AccessLevel::Basic), Some("WILL"));
    assert_eq!(basic.len(), 1);
    assert_eq!(basic[0].upn(), "will@example.com");
    assert_eq!(select_users(users.clone(), Some(AccessLevel::Stakeholder), Some("will")).len(), 0);
    assert_eq!(find_user_by_upn(users.clone(), "WILL@example.com").unwrap().upn(), "will@example.com");
    assert_eq!(
        find_user_by_upn(users, "will").map(|u| u.upn()),
        Err(AdoctlError::UserNotFound("will".into()))
    );
}

#[test]
fn user_listing_reads_pages_until_a_short_one() {
    let mut listing = UserListing::new();
    let first = listing.next_request().unwrap();
    assert_eq!(first.path, "_apis/userentitlements");
    assert!(first.query.contains(&("skip".to_owned(), "0".to_owned())));
    listing.receive_page((0..100).map(|i| user(&format!("user{i}@example.com"), "U", "express")).collect());
    let second = listing.next_request().unwrap();
    assert!(second.query.contains(&("skip".to_owned(), "100".to_owned())));
    listing.receive_page(vec![user("user100@example.com", "user100", "express")]);
    assert!(listing.next_request().is_none());
    let all = listing.into_members();
    assert_eq!(all.len(), 101);
    assert_eq!(all[100].upn(), "user100@example.com");
}

#[test]
fn project_listing_follows_continuation_tokens() {
    let mut listing = ProjectListing::new(ProjectStateFilter::All);
    let first = listing.next_request().unwrap();
    assert_eq!(first.path, "_apis/projects");
    assert!(first.query.contains(&("stateFilter".to_owned(), "all".to_owned())));
    listing.receive_page(vec![Project { id: "project-1".into(), ..Project::default() }], Some(" token-1 "));
    let second = listing.next_request().unwrap();
    assert!(second.query.contains(&("continuationToken".to_owned(), "token-1".to_owned())));
    listing.receive_page(vec![Project { id: "project-2".into(), ..Project::default() }], None);
    assert!(listing.next_request().is_none());
    let ids: Vec<String> = listing.into_projects().into_iter().map(|p| p.id).collect();
    assert_eq!(ids, strings(&["project-1", "project-2"]));
}

#[test]
fn job_listing_reads_all_pages_and_refuses_a_repeated_token() {
    let mut listing = JobListing::new(42);
    let first = listing.next_request().unwrap();
    assert_eq!(first.path, "_apis/distributedtask/pools/42/jobrequests");
    listing
        .receive_page(vec![JobRequest { request_id: 1001, ..JobRequest::default() }], Some("token-1"))
        .unwrap();
    let second = listing.next_request().unwrap();
    assert!(second.query.contains(&("continuationToken".to_owned(), "token-1".to_owned())));
    listing.receive_page(vec![JobRequest { request_id: 1000, ..JobRequest::default() }], None).unwrap();
    assert!(listing.next_request().is_none());
    let ids: Vec<u64> = listing.into_jobs().into_iter().map(|j| j.request_id).collect();
    assert_eq!(ids, vec![1001, 1000]);

    let mut looping = JobListing::new(7);
    looping.receive_page(vec![], Some("same")).unwrap();
    assert!(matches!(looping.receive_page(vec![], Some("same")), Err(AdoctlError::Pagination(_))));
    assert!(looping.next_request().is_none());
}

#[test]
fn pool_ids_and_names() {
    assert_eq!(pool_id_from_text(" 42 "), Some(42));
    assert_eq!(pool_id_from_text("+7"), Some(7));
    assert_eq!(pool_id_from_text("4294967296"), None);
    assert_eq!(pool_id_from_text("Default"), None);
    assert_eq!(pool_id_from_text(&decimal_text(4294967295)), Some(4294967295));
    let pools = vec![AgentPool { id: 3, name: "Linux Pool".into(), ..AgentPool::default() }];
    assert_eq!(select_pool_id(pools.clone(), "linux pool"), Ok(3));
    assert_eq!(select_pool_id(pools, "Missing Pool"), Err(AdoctlError::PoolNotFound("Missing Pool".into())));
}

#[test]
fn membership_paths_are_url_encoded() {
    let request = membership_request(true, "aad.user 1", "vssgp.a/b");
    assert_eq!(request.method, HttpMethod::Put);
    assert_eq!(request.path, "_apis/graph/memberships/aad.user+1/vssgp.a%2Fb");
    assert_eq!(membership_request(false, "u", "g").method, HttpMethod::Delete);
    assert_eq!(project_request("My Project").path, "_apis/projects/My+Project");
    assert!(group_from_descriptor("vssgp.abc").is_some());
    assert!(group_from_descriptor("Contributors").is_none());
}

#[test]
fn help_topics_for_bare_command_groups() {
    assert_eq!(help_topic_if_missing_command(&vec![]), Some(HelpTopic::Root));
    assert_eq!(help_topic_if_missing_command(&strings(&["--debug", "user"])), Some(HelpTopic::User));
    assert_eq!(help_topic_if_missing_command(&strings(&["--org", "x", "pool"])), Some(HelpTopic::Pool));
    assert_eq!(help_topic_if_missing_command(&strings(&["--org=x", "project"])), Some(HelpTopic::Project));
    assert_eq!(help_topic_if_missing_command(&strings(&["user", "list"])), None);
    assert_eq!(help_topic_if_missing_command(&strings(&["--help"])), None);
    assert_eq!(help_topic_if_missing_command(&strings(&["--org"])), None);
    assert_eq!(
        command_path_without_global_args(&strings(&["--org", "x", "project"])),
        Some(strings(&["project"]))
    );
    assert_eq!("json".parse::<OutputArg>().unwrap(), OutputArg::Json);
}

#[test]
fn commands_resolve_user_selectors() {
    let get = Commands::Users(UsersCommand::Get(UsersGetArgs {
        user: UserSelectorArgs { upn: Some(" a@b.c ".into()), id: None },
        include_projects: true,
    }));
    match plan_command(get).unwrap() {
        Action::GetUser { user, include_projects } => {
            assert_eq!(user, UserIdentifier::Upn("a@b.c".into()));
            assert!(include_projects);
        }
        other => panic!("unexpected {other:?}"),
    }
    let add = Commands::Projects(ProjectsCommand::AddUser(ProjectMembershipArgs {
        project: "P".into(),
        user: UserSelectorArgs { upn: None, id: None },
        group: "Contributors".into(),
    }));
    assert!(matches!(plan_command(add), Err(AdoctlError::MissingUserIdentifier)));
    let jobs = Commands::Pools(PoolsCommand::Jobs(PoolSelectorArgs { pool: "Default".into() }));
    assert!(matches!(plan_command(jobs), Ok(Action::ListJobs { pool }) if pool == "Default"));
}

#[test]
fn command_messages() {
    assert_eq!(
        set_access_message("will@example.com", AccessLevel::Stakeholder),
        "已將 will@example.com 的 accessLevel 設定為 Stakeholder。"
    );
    let user = UserIdentifier::Upn("will@example.com".into());
    assert_eq!(
        membership_message(&user, "P", "Contributors", true),
        "已將 will@example.com 加入專案 P 的 Contributors 群組。"
    );
    assert_eq!(
        membership_message(&user, "P", "Contributors", false),
        "已將 will@example.com 從專案 P 的 Contributors 群組移除。"
    );
    assert_eq!(
        login_success_message("my-org", "default", &StoredCredential::AzureCli, true),
        "登入成功：organization=my-org，profile=default，方式=Azure CLI（未保存）"
    );
}

#[test]
fn login_decisions() {
    assert_eq!(login_pat_token(&Some(" arg ".into()), Some("env".into())), Some("arg".into()));
    assert_eq!(login_pat_token(&None, Some("env".into())), Some("env".into()));
    assert_eq!(login_pat_token(&None, None), None);
    assert_eq!(pat_credential(String::new()), Err(AdoctlError::Authentication("PAT 不可為空。".into())));
    assert_eq!(pat_credential("t".into()), Ok(StoredCredential::Pat { token: "t".into() }));
    assert!(matches!(device_client_id(&None), Err(AdoctlError::Authentication(_))));
    let response = adoctl::auth::DeviceCodeResponse {
        device_code: "d".into(),
        user_code: "ABC".into(),
        verification_uri: "https://microsoft.com/devicelogin".into(),
        expires_in: 900,
        interval: None,
        message: None,
    };
    assert_eq!(device_code_prompt(&response), "請開啟 https://microsoft.com/devicelogin，並輸入代碼 ABC 完成登入。");
    assert_eq!(device_poll_interval(&response), 5);
    let token = TokenResponse { access_token: "a".into(), refresh_token: None, expires_in: None };
    assert_eq!(
        device_code_credential("c".into(), "t".into(), token, 0),
        Err(AdoctlError::Authentication("device-code 登入沒有回傳 refresh token。".into()))
    );
}

#[test]
fn packaging_targets_and_names() {
    assert_eq!(parse_targets(vec![]).unwrap().len(), 6);
    assert_eq!(parse_targets(strings(&["--target", "x", "--all-default-targets"])).unwrap().len(), 6);
    assert_eq!(parse_targets(strings(&["--target", "a", "--target", "b"])), Ok(strings(&["a", "b"])));
    assert_eq!(parse_targets(strings(&["--target"])), Err("--target 需要指定 target triple".into()));
    assert_eq!(parse_targets(strings(&["--x"])), Err("未知 package 參數：--x".into()));
    assert!(matches!(task_from_args(strings(&["package", "--target", "a"])), Task::Package(rest) if rest == strings(&["--target", "a"])));
    assert!(matches!(task_from_args(vec![]), Task::Help));
    assert!(matches!(task_from_args(strings(&["nope"])), Task::Unknown(t) if t == "nope"));
    assert_eq!(executable_name("x86_64-pc-windows-msvc"), "adoctl.exe");
    assert_eq!(artifact_file_name("x86_64-pc-windows-msvc"), "adoctl-x86_64-pc-windows-msvc.exe");
    assert_eq!(artifact_file_name("aarch64-apple-darwin"), "adoctl-aarch64-apple-darwin");
}

#[test]
fn parse_failures_have_short_messages() {
    assert_eq!(
        parse_failure_message(ParseFailure::MissingRequiredArgument),
        Some("缺少必要參數，請使用 --help 查看說明。")
    );
    assert_eq!(parse_failure_message(ParseFailure::DisplayHelp), None);
    assert_eq!(parse_failure_message(ParseFailure::Other), Some("命令格式無效，請使用 --help 查看說明。"));
}
