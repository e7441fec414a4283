use adoctl::access_level::AccessLevel;
use adoctl::auth::{credential_from_store, authorization_step, refreshed_credential, AuthorizationStep, TokenResponse};
use adoctl::cli::{AuthMethodArg, OutputArg};
use adoctl::config::Organization;
use adoctl::credentials::{CredentialKey, CredentialStore, MemoryCredentialStore, StoredCredential};
use adoctl::pool_type::PoolTypeFilter;
use adoctl::pools::pool_id_from_text;
use adoctl::project_state::ProjectStateFilter;
use adoctl::text::decimal_text;

#[test]
fn every_access_level_reads_back_from_its_spellings() {
    for level in [AccessLevel::Stakeholder, AccessLevel::Basic, AccessLevel::BasicTestPlans] {
        assert_eq!(AccessLevel::parse(level.cli_name()), Ok(level));
        assert!(level.matches_api_value(level.cli_name()));
        assert!(level.matches_api_value(level.api_account_license_type()));
        for other in [AccessLevel::Stakeholder, AccessLevel::Basic, AccessLevel::BasicTestPlans] {
            if other != level {
                assert!(!other.matches_api_value(level.api_account_license_type()));
            }
        }
    }
}

#[test]
fn command_line_values_read_back() {
    for method in [AuthMethodArg::Pat, AuthMethodArg::AzureCli, AuthMethodArg::DeviceCode] {
        assert_eq!(AuthMethodArg::parse(method.as_text()), Ok(method));
    }
    for output in [OutputArg::Table, OutputArg::Json] {
        assert_eq!(OutputArg::parse(output.as_text()), Ok(output));
    }
    for kind in [PoolTypeFilter::Automation, PoolTypeFilter::Deployment] {
        assert_eq!(PoolTypeFilter::parse(kind.api_value()), Ok(kind));
    }
    for state in [
        ProjectStateFilter::All,
        ProjectStateFilter::New,
        ProjectStateFilter::CreatePending,
        ProjectStateFilter::WellFormed,
        ProjectStateFilter::Deleting,
    ] {
        assert_eq!(ProjectStateFilter::parse(state.cli_name()), Ok(state));
        assert_eq!(ProjectStateFilter::parse(state.api_value()), Ok(state));
    }
}

#[test]
fn pool_ids_read_back_from_their_decimal_text() {
    for id in [0u32, 7, 42, 100, 4294967295] {
        assert_eq!(pool_id_from_text(&decimal_text(id as u64)), Some(id));
    }
}

#[test]
fn bare_name_and_url_name_the_same_organization() {
    let bare = Organization::parse("contoso", None).unwrap();
    let url = Organization::parse("https://dev.azure.com/contoso", None).unwrap();
    assert_eq!(bare.name, url.name);
}

#[test]
fn store_gives_back_the_last_save_and_keeps_other_keys() {
    let mut store = MemoryCredentialStore::new();
    let a = CredentialKey::new("org".into(), "a".into());
    let b = CredentialKey::new("org".into(), "b".into());
    store.save(&a, &StoredCredential::AzureCli).unwrap();
    store.save(&b, &StoredCredential::Pat { token: "x".into() }).unwrap();
    store.save(&a, &StoredCredential::Pat { token: "y".into() }).unwrap();
    assert_eq!(store.load(&a).unwrap(), Some(StoredCredential::Pat { token: "y".into() }));
    store.delete(&a).unwrap();
    assert_eq!(store.load(&a).unwrap(), None);
    assert_eq!(store.load(&b).unwrap(), Some(StoredCredential::Pat { token: "x".into() }));
}

#[test]
fn a_refreshed_token_is_used_without_another_refresh() {
    let token = TokenResponse { access_token: "fresh".into(), refresh_token: Some("r2".into()), expires_in: Some(3600) };
    let credential = refreshed_credential(&"client".into(), &"tenant".into(), &"r1".into(), &token, 1_000);
    assert_eq!(authorization_step(&credential, 1_000), AuthorizationStep::Header("Bearer fresh".into()));
}

#[test]
fn descriptions_and_sources_name_no_token() {
    let a = StoredCredential::Pat { token: "secret-one".into() };
    let b = StoredCredential::Pat { token: "secret-two".into() };
    assert_eq!(a.summary(), b.summary());
    assert!(!a.summary().contains("secret"));
    let first = adoctl::auth::pat_token_from_values(None, Some("token-a".into())).map(|(s, _)| s);
    let second = adoctl::auth::pat_token_from_values(Some(" ".into()), Some("token-b".into())).map(|(s, _)| s);
    assert_eq!(first, second);
}

#[test]
fn access_level_api_values_are_aliases() {
    assert_eq!("express".parse::<AccessLevel>(), Ok(AccessLevel::Basic));
    assert_eq!(" ADVANCED ".parse::<AccessLevel>(), Ok(AccessLevel::BasicTestPlans));
    assert_eq!(AccessLevel::parse(AccessLevel::Basic.api_account_license_type()), Ok(AccessLevel::Basic));
    assert!("premium".parse::<AccessLevel>().is_err());
}

#[test]
fn lookup_answers_alike_but_for_tokens_give_alike_results() {
    let key = || CredentialKey::new("org".into(), "p".into());
    let first = credential_from_store(Ok(Some(StoredCredential::Pat { token: "one".into() })), Some(AuthMethodArg::AzureCli), key());
    let second = credential_from_store(Ok(Some(StoredCredential::Pat { token: "two".into() })), Some(AuthMethodArg::AzureCli), key());
    assert_eq!(first.map(|(c, _)| c), second.map(|(c, _)| c));
}
