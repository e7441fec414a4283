use adoctl::access_level::AccessLevel;
use adoctl::auth::{pat_create_url, pat_token_from_values, PatEnvironmentSource, AZURE_DEVOPS_EXT_PAT_ENV};
use adoctl::config::Organization;
use adoctl::credentials::{CredentialKey, CredentialStore, MemoryCredentialStore, StoredCredential};
use adoctl::identity::UserIdentifier;
use adoctl::pool_type::PoolTypeFilter;
use adoctl::pools::{JobRequest, JobRequestState};
use adoctl::project_state::ProjectStateFilter;
use adoctl::projects::continuation_token_from_header;

#[test]
fn maps_safe_cli_values_to_azure_devops_values() {
    assert_eq!(AccessLevel::Stakeholder.api_account_license_type(), "stakeholder");
    assert_eq!(AccessLevel::Basic.api_account_license_type(), "express");
    assert_eq!(AccessLevel::BasicTestPlans.api_account_license_type(), "advanced");
}

#[test]
fn matches_aliases_and_api_values() {
    assert!(AccessLevel::Basic.matches_api_value("basic"));
    assert!(AccessLevel::Basic.matches_api_value("express"));
    assert!(AccessLevel::BasicTestPlans.matches_api_value("basic_test_plans"));
    assert!(AccessLevel::BasicTestPlans.matches_api_value("advanced"));
}

#[test]
fn derives_job_request_state_from_timestamps_and_result() {
    assert_eq!(JobRequest::default().state(), JobRequestState::Queued);
    assert_eq!(
        JobRequest {
            assign_time: Some("2026-07-30T01:00:00Z".into()),
            ..JobRequest::default()
        }
        .state(),
        JobRequestState::Running
    );
    assert_eq!(
        JobRequest {
            result: Some("succeeded".into()),
            ..JobRequest::default()
        }
        .state(),
        JobRequestState::Completed
    );
}

#[test]
fn reads_continuation_token_from_response_headers() {
    assert_eq!(continuation_token_from_header(Some("token-123")), Some("token-123".into()));
}

#[test]
fn pat_create_url_uses_parsed_organization_name() {
    let org = Organization::parse("willh", None).unwrap();
    assert_eq!(pat_create_url(&org), "https://dev.azure.com/willh/_usersSettings/tokens");

    let org = Organization::parse("https://dev.azure.com/willh", None).unwrap();
    assert_eq!(pat_create_url(&org), "https://dev.azure.com/willh/_usersSettings/tokens");
}

#[test]
fn pat_token_uses_azure_devops_ext_pat_when_adoctl_pat_is_absent() {
    assert_eq!(
        pat_token_from_values(None, Some(" azure-devops-ext-token ".into())),
        Some((PatEnvironmentSource::AzureDevopsExtPat, "azure-devops-ext-token".into()))
    );
    assert_eq!(PatEnvironmentSource::AzureDevopsExtPat.env_name(), AZURE_DEVOPS_EXT_PAT_ENV);
}

#[test]
fn pat_token_prefers_adoctl_pat_over_azure_devops_ext_pat() {
    assert_eq!(
        pat_token_from_values(Some("adoctl-token".into()), Some("azure-token".into())),
        Some((PatEnvironmentSource::AdoctlPat, "adoctl-token".into()))
    );
}

#[test]
fn pat_token_ignores_empty_values() {
    assert_eq!(
        pat_token_from_values(Some("   ".into()), Some("azure-token".into())),
        Some((PatEnvironmentSource::AzureDevopsExtPat, "azure-token".into()))
    );
    assert_eq!(pat_token_from_values(Some("".into()), None), None);
}

#[test]
fn parses_organization_name_from_common_forms() {
    assert_eq!(Organization::parse("my-org", None).unwrap().name, "my-org");
    assert_eq!(Organization::parse("https://dev.azure.com/my-org", None).unwrap().name, "my-org");
    assert_eq!(Organization::parse("https://my-org.visualstudio.com", None).unwrap().name, "my-org");
}

#[test]
fn supports_test_base_url_override() {
    let org = Organization::parse("my-org", Some("http://127.0.0.1:3000".into())).unwrap();
    assert_eq!(
        org.service_base(adoctl::config::AdoService::Entitlements).unwrap(),
        "http://127.0.0.1:3000/"
    );
}

#[test]
fn memory_store_round_trips_credentials() {
    let mut store = MemoryCredentialStore::default();
    let key = CredentialKey::new("org".into(), "default".into());
    let credential = StoredCredential::Pat { token: "secret".into() };

    store.save(&key, &credential).unwrap();
    assert_eq!(store.load(&key).unwrap(), Some(credential));
    store.delete(&key).unwrap();
    assert_eq!(store.load(&key).unwrap(), None);
}

#[test]
fn prefers_single_explicit_identifier() {
    assert_eq!(
        UserIdentifier::from_parts(Some(" user@example.com ".into()), None).unwrap(),
        UserIdentifier::Upn("user@example.com".into())
    );
    assert_eq!(
        UserIdentifier::from_parts(None, Some(" 123 ".into())).unwrap(),
        UserIdentifier::Id("123".into())
    );
}

#[test]
fn rejects_missing_identifier() {
    assert!(UserIdentifier::from_parts(None, None).is_err());
}

#[test]
fn maps_pool_types_to_api_values() {
    assert_eq!(PoolTypeFilter::Automation.api_value(), "automation");
    assert_eq!(PoolTypeFilter::Deployment.api_value(), "deployment");
}

#[test]
fn parses_pool_types_case_insensitively() {
    assert_eq!("Automation".parse::<PoolTypeFilter>().unwrap(), PoolTypeFilter::Automation);
    assert_eq!("deployment".parse::<PoolTypeFilter>().unwrap(), PoolTypeFilter::Deployment);
}

#[test]
fn maps_cli_values_to_api_values() {
    assert_eq!(ProjectStateFilter::All.api_value(), "all");
    assert_eq!(ProjectStateFilter::New.api_value(), "new");
    assert_eq!(ProjectStateFilter::CreatePending.api_value(), "createPending");
    assert_eq!(ProjectStateFilter::WellFormed.api_value(), "wellFormed");
    assert_eq!(ProjectStateFilter::Deleting.api_value(), "deleting");
}

#[test]
fn parses_cli_and_api_style_values() {
    assert_eq!("all".parse::<ProjectStateFilter>().unwrap(), ProjectStateFilter::All);
    assert_eq!("create-pending".parse::<ProjectStateFilter>().unwrap(), ProjectStateFilter::CreatePending);
    assert_eq!("createPending".parse::<ProjectStateFilter>().unwrap(), ProjectStateFilter::CreatePending);
    assert_eq!("well_formed".parse::<ProjectStateFilter>().unwrap(), ProjectStateFilter::WellFormed);
}
