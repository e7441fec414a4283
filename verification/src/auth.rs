//! Authentication decisions: where a credential comes from, which header it
//! gives, when a cached token is still good, and how device-code polling goes.

use base64::Engine;
use vstd::prelude::*;
use crate::cli::AuthMethodArg;
use crate::config::Organization;
use crate::credentials::{copy_text, CredentialKey, CredentialStore, StoredCredential};
use crate::error::AdoctlError;
use crate::text;

verus! {

pub const AZURE_DEVOPS_RESOURCE: &'static str = "499b84ac-1321-427f-aa17-267ca6975798";

pub const AZURE_DEVOPS_SCOPE: &'static str = "499b84ac-1321-427f-aa17-267ca6975798/.default offline_access";

pub const ADOCTL_PAT_ENV: &'static str = "ADOCTL_PAT";

pub const AZURE_DEVOPS_EXT_PAT_ENV: &'static str = "AZURE_DEVOPS_EXT_PAT";

/// The environment variable that supplied a PAT.
#[derive(Debug, Clone, Copy, PartialEq, Eq, Structural)]
pub enum PatEnvironmentSource {
    AdoctlPat,
    AzureDevopsExtPat,
}

impl PatEnvironmentSource {
    pub fn env_name(self) -> (r: &'static str)
        ensures
            r@ == match self {
                PatEnvironmentSource::AdoctlPat => ADOCTL_PAT_ENV@,
                PatEnvironmentSource::AzureDevopsExtPat => AZURE_DEVOPS_EXT_PAT_ENV@,
            },
    {
        match self {
            PatEnvironmentSource::AdoctlPat => ADOCTL_PAT_ENV,
            PatEnvironmentSource::AzureDevopsExtPat => AZURE_DEVOPS_EXT_PAT_ENV,
        }
    }
}

/// A value that, trimmed, is not empty.
pub open spec fn usable_token(value: Option<String>) -> bool {
    value is Some && text::trim(value->0@).len() > 0
}

/// The PAT taken from the environment: `ADOCTL_PAT` first, then
/// `AZURE_DEVOPS_EXT_PAT`, trimmed; blank values are skipped.
pub open spec fn pat_from_values(adoctl_pat: Option<String>, azure_devops_ext_pat: Option<String>) -> Option<
    (PatEnvironmentSource, Seq<char>),
> {
    if usable_token(adoctl_pat) {
        Some((PatEnvironmentSource::AdoctlPat, text::trim(adoctl_pat->0@)))
    } else if usable_token(azure_devops_ext_pat) {
        Some((PatEnvironmentSource::AzureDevopsExtPat, text::trim(azure_devops_ext_pat->0@)))
    } else {
        None
    }
}

/// Picks the PAT from the values of `ADOCTL_PAT` and `AZURE_DEVOPS_EXT_PAT`.
pub fn pat_token_from_values(adoctl_pat: Option<String>, azure_devops_ext_pat: Option<String>) -> (r:
    Option<(PatEnvironmentSource, String)>)
    ensures
        match pat_from_values(adoctl_pat, azure_devops_ext_pat) {
            Some((source, token)) => r matches Some((s, t)) && s == source && t@ == token,
            None => r is None,
        },
{
    if let Some(token) = &adoctl_pat {
        let t = text::trimmed(token.as_str());
        if !t.as_str().is_empty() {
            return Some((PatEnvironmentSource::AdoctlPat, t));
        }
    }
    if let Some(token) = &azure_devops_ext_pat {
        let t = text::trimmed(token.as_str());
        if !t.as_str().is_empty() {
            return Some((PatEnvironmentSource::AzureDevopsExtPat, t));
        }
    }
    None
}

/// Whether a saved credential is of the kind that `method` asks for.
pub open spec fn credential_fits(credential: StoredCredential, method: AuthMethodArg) -> bool {
    match (credential, method) {
        (StoredCredential::Pat { .. }, AuthMethodArg::Pat) => true,
        (StoredCredential::AzureCli, AuthMethodArg::AzureCli) => true,
        (StoredCredential::DeviceCode { .. }, AuthMethodArg::DeviceCode) => true,
        _ => false,
    }
}

pub fn stored_credential_matches_method(credential: &StoredCredential, method: AuthMethodArg) -> (r: bool)
    ensures
        r == credential_fits(*credential, method),
{
    match (credential, method) {
        (StoredCredential::Pat { .. }, AuthMethodArg::Pat) => true,
        (StoredCredential::AzureCli, AuthMethodArg::AzureCli) => true,
        (StoredCredential::DeviceCode { .. }, AuthMethodArg::DeviceCode) => true,
        _ => false,
    }
}

/// The method's name as `{:?}` writes it.
pub open spec fn method_debug_text(method: AuthMethodArg) -> Seq<char> {
    match method {
        AuthMethodArg::Pat => "Pat"@,
        AuthMethodArg::AzureCli => "AzureCli"@,
        AuthMethodArg::DeviceCode => "DeviceCode"@,
    }
}

/// The message when the saved login is of another kind than the one asked for.
pub open spec fn method_mismatch_message(credential: StoredCredential, method: AuthMethodArg) -> Seq<char> {
    "已保存的登入方式是 "@ + credential.summary_text() + "，但本次指定的是 "@ + method_debug_text(method)
        + "。請重新執行 adoctl login。"@
}

fn method_debug_name(method: AuthMethodArg) -> (r: &'static str)
    ensures
        r@ == method_debug_text(method),
{
    match method {
        AuthMethodArg::Pat => "Pat",
        AuthMethodArg::AzureCli => "AzureCli",
        AuthMethodArg::DeviceCode => "DeviceCode",
    }
}

/// Whether `r` is what a store lookup that gave `loaded` yields: the store's
/// error, `NotLoggedIn` when nothing is saved, `Authentication` when the saved
/// login is of another kind than `method`, and otherwise the saved credential.
pub open spec fn answers_lookup(
    loaded: Result<Option<StoredCredential>, AdoctlError>,
    method: Option<AuthMethodArg>,
    r: Result<(StoredCredential, CredentialKey), AdoctlError>,
) -> bool {
    match loaded {
        Err(e) => r == Err::<(StoredCredential, CredentialKey), AdoctlError>(e),
        Ok(None) => r matches Err(AdoctlError::NotLoggedIn),
        Ok(Some(c)) => match method {
            Some(m) => if credential_fits(c, m) {
                r matches Ok((found, _)) && found == c
            } else {
                r matches Err(AdoctlError::Authentication(message)) && message@ == method_mismatch_message(c, m)
            },
            None => r matches Ok((found, _)) && found == c,
        },
    }
}

/// What a store lookup yields, with the key it was made under.
pub fn credential_from_store(
    loaded: Result<Option<StoredCredential>, AdoctlError>,
    method: Option<AuthMethodArg>,
    key: CredentialKey,
) -> (r: Result<(StoredCredential, CredentialKey), AdoctlError>)
    ensures
        answers_lookup(loaded, method, r),
        r matches Ok((_, k)) ==> k == key,
{
    match loaded {
        Err(e) => Err(e),
        Ok(None) => Err(AdoctlError::NotLoggedIn),
        Ok(Some(credential)) => {
            if let Some(expected) = method {
                if !stored_credential_matches_method(&credential, expected) {
                    let mut message = "已保存的登入方式是 ".to_owned();
                    message.append(credential.summary());
                    message.append("，但本次指定的是 ");
                    message.append(method_debug_name(expected));
                    message.append("。請重新執行 adoctl login。");
                    return Err(AdoctlError::Authentication(message));
                }
            }
            Ok((credential, key))
        },
    }
}

/// The credential for a command: a PAT from the environment (given here as the
/// values of `ADOCTL_PAT` and `AZURE_DEVOPS_EXT_PAT`), else Azure CLI when
/// `method` asks for it, else what `store` holds under `org:profile`. The
/// store is one that users of the library implement: the result is what an
/// answer of the store to a lookup of `org:profile` yields.
pub fn load_stored_or_env_credential<S: CredentialStore>(
    org: &Organization,
    profile: &str,
    method: Option<AuthMethodArg>,
    adoctl_pat: Option<String>,
    azure_devops_ext_pat: Option<String>,
    store: &S,
) -> (r: Result<(StoredCredential, CredentialKey), AdoctlError>)
    ensures
        r matches Ok((_, k)) ==> k@ == (org.name@, profile@),
        match pat_from_values(adoctl_pat, azure_devops_ext_pat) {
            Some((_, token)) => r matches Ok((StoredCredential::Pat { token: t }, _)) && t@ == token,
            None => if method == Some(AuthMethodArg::AzureCli) {
                r matches Ok((StoredCredential::AzureCli, _))
            } else {
                exists|loaded: Result<Option<StoredCredential>, AdoctlError>| #[trigger]
                    answers_lookup(loaded, method, r) && store.answers((org.name@, profile@), loaded)
            },
        },
{
    let key = CredentialKey::new(org.name.clone(), profile.to_owned());
    if let Some((_, token)) = pat_token_from_values(adoctl_pat, azure_devops_ext_pat) {
        return Ok((StoredCredential::Pat { token }, key));
    }
    if method == Some(AuthMethodArg::AzureCli) {
        return Ok((StoredCredential::AzureCli, key));
    }
    let loaded = store.load(&key);
    credential_from_store(loaded, method, key)
}

/// The page where a PAT is created for the organization.
pub open spec fn pat_create_url_of(name: Seq<char>) -> Seq<char> {
    "https://dev.azure.com/"@ + name + "/_usersSettings/tokens"@
}

pub fn pat_create_url(organization: &Organization) -> (r: String)
    ensures
        r@ == pat_create_url_of(organization.name@),
{
    let mut url = "https://dev.azure.com/".to_owned();
    url.append(organization.name.as_str());
    url.append("/_usersSettings/tokens");
    url
}

/// The character of a 6-bit value in the standard base64 alphabet
/// (`A`-`Z`, `a`-`z`, `0`-`9`, `+`, `/`).
pub open spec fn base64_digit(v: nat) -> char {
    if v < 26 {
        ((v + 65) as u32) as char
    } else if v < 52 {
        ((v + 71) as u32) as char
    } else if v < 62 {
        ((v - 4) as u32) as char
    } else if v == 62 {
        '+'
    } else {
        '/'
    }
}

/// Standard base64 with `=` padding (RFC 4648, section 4): every three bytes
/// become four characters, and a last group of one or two bytes is padded.
pub open spec fn base64_encoded(bytes: Seq<u8>) -> Seq<char>
    decreases bytes.len(),
{
    if bytes.len() == 0 {
        Seq::empty()
    } else if bytes.len() == 1 {
        let a = bytes[0] as nat;
        seq![base64_digit(a / 4), base64_digit((a % 4) * 16), '=', '=']
    } else if bytes.len() == 2 {
        let a = bytes[0] as nat;
        let b = bytes[1] as nat;
        seq![base64_digit(a / 4), base64_digit((a % 4) * 16 + b / 16), base64_digit((b % 16) * 4), '=']
    } else {
        let a = bytes[0] as nat;
        let b = bytes[1] as nat;
        let c = bytes[2] as nat;
        seq![
            base64_digit(a / 4),
            base64_digit((a % 4) * 16 + b / 16),
            base64_digit((b % 16) * 4 + c / 64),
            base64_digit(c % 64),
        ] + base64_encoded(bytes.skip(3))
    }
}

/// Encodes the UTF-8 bytes of `text` with
/// `base64::engine::general_purpose::STANDARD` (`Engine::encode`): the
/// standard alphabet with padding, which the contract states in full.
#[verifier::external_body]
fn base64_of_text(text: &str) -> (r: String)
    ensures
        r@ == base64_encoded(vstd::utf8::encode_utf8(text@)),
{
    base64::engine::general_purpose::STANDARD.encode(text)
}

/// The `Authorization` value of a PAT: `Basic` and the base64 of `:token`.
pub open spec fn basic_pat_header_of(token: Seq<char>) -> Seq<char> {
    "Basic "@ + base64_encoded(vstd::utf8::encode_utf8(":"@ + token))
}

/// The `Authorization` value of an access token.
pub open spec fn bearer_header_of(token: Seq<char>) -> Seq<char> {
    "Bearer "@ + token
}

pub fn basic_pat_header_text(token: &str) -> (r: String)
    ensures
        r@ == basic_pat_header_of(token@),
{
    let mut credentials = ":".to_owned();
    credentials.append(token);
    let encoded = base64_of_text(credentials.as_str());
    let mut header = "Basic ".to_owned();
    header.append(encoded.as_str());
    header
}

pub fn bearer_header_text(token: &str) -> (r: String)
    ensures
        r@ == bearer_header_of(token@),
{
    let mut header = "Bearer ".to_owned();
    header.append(token);
    header
}

/// What to do to authorize a request.
#[derive(Debug, Clone, PartialEq, Eq)]
pub enum AuthorizationStep {
    /// Send this `Authorization` value.
    Header(String),
    /// Ask Azure CLI for an access token and send it as a bearer token.
    RunAzureCli,
    /// Refresh the device-code token first.
    Refresh { tenant: String, client_id: String, refresh_token: String },
}

/// Whether a cached token that expires at `expires_at` is good at `now`: it has
/// more than a minute left.
pub open spec fn token_is_fresh(now: u64, expires_at: u64) -> bool {
    now + 60 < expires_at
}

/// Decides how to authorize a request at time `now` (seconds since the epoch).
pub fn authorization_step(credential: &StoredCredential, now: u64) -> (r: AuthorizationStep)
    ensures
        match *credential {
            StoredCredential::Pat { token } => r matches AuthorizationStep::Header(h) && h@
                == basic_pat_header_of(token@),
            StoredCredential::AzureCli => r == AuthorizationStep::RunAzureCli,
            StoredCredential::DeviceCode {
                client_id,
                tenant,
                refresh_token,
                access_token,
                expires_at,
            } => if access_token is Some && expires_at is Some && token_is_fresh(
                now,
                expires_at->0,
            ) {
                r matches AuthorizationStep::Header(h) && h@ == bearer_header_of(access_token->0@)
            } else {
                r == AuthorizationStep::Refresh { tenant, client_id, refresh_token }
            },
        },
{
    match credential {
        StoredCredential::Pat { token } => AuthorizationStep::Header(basic_pat_header_text(token.as_str())),
        StoredCredential::AzureCli => AuthorizationStep::RunAzureCli,
        StoredCredential::DeviceCode { client_id, tenant, refresh_token, access_token, expires_at } => {
            if let (Some(token), Some(stored_expires_at)) = (access_token, expires_at) {
                if now < *stored_expires_at && *stored_expires_at - now > 60 {
                    return AuthorizationStep::Header(bearer_header_text(token.as_str()));
                }
            }
            AuthorizationStep::Refresh {
                tenant: tenant.clone(),
                client_id: client_id.clone(),
                refresh_token: refresh_token.clone(),
            }
        },
    }
}

/// The token endpoint's answer.
#[derive(Debug, Clone)]
pub struct TokenResponse {
    pub access_token: String,
    pub refresh_token: Option<String>,
    pub expires_in: Option<u64>,
}

/// The device-code endpoint's answer.
#[derive(Debug, Clone)]
pub struct DeviceCodeResponse {
    pub device_code: String,
    pub user_code: String,
    pub verification_uri: String,
    pub expires_in: u64,
    pub interval: Option<u64>,
    pub message: Option<String>,
}

/// An OAuth error body.
#[derive(Debug, Clone)]
pub struct OAuthError {
    pub error: String,
    pub error_description: Option<String>,
}

/// The expiry time of a token that lives `expires_in` seconds from `now`,
/// capped at `u64::MAX`.
pub open spec fn expiry_of(now: u64, expires_in: Option<u64>) -> Option<u64> {
    match expires_in {
        Some(seconds) => Some(if now + seconds > u64::MAX {
            u64::MAX
        } else {
            (now + seconds) as u64
        }),
        None => None,
    }
}

pub fn expires_at(now: u64, expires_in: Option<u64>) -> (r: Option<u64>)
    ensures
        r == expiry_of(now, expires_in),
{
    match expires_in {
        Some(seconds) => Some(now.saturating_add(seconds)),
        None => None,
    }
}

#[verifier::external_type_specification]
#[verifier::external_body]
pub struct ExSystemTime(std::time::SystemTime);

/// `SystemTime::now`: the system clock. Nothing is claimed of it.
#[verifier::external_body]
fn system_now() -> (r: std::time::SystemTime) {
    std::time::SystemTime::now()
}

/// `SystemTime::duration_since(UNIX_EPOCH)`, with `None` for a time before the
/// epoch. Nothing is claimed of the duration.
#[verifier::external_body]
fn since_epoch(time: &std::time::SystemTime) -> (r: Option<std::time::Duration>) {
    time.duration_since(std::time::UNIX_EPOCH).ok()
}

/// `Duration::as_secs`: the whole seconds of a duration, which Verus cannot
/// see inside; nothing is claimed of them.
#[verifier::external_body]
fn whole_seconds(duration: &std::time::Duration) -> (r: u64) {
    duration.as_secs()
}

/// The seconds since the Unix epoch on the system clock, 0 before the epoch.
fn epoch_seconds() -> (r: u64) {
    let now = system_now();
    match since_epoch(&now) {
        Some(elapsed) => whole_seconds(&elapsed),
        None => 0,
    }
}

/// The expiry time of a token that lives `expires_in` seconds from now.
pub fn expires_at_from_now(expires_in: Option<u64>) -> (r: Option<u64>)
    ensures
        r is Some == expires_in is Some,
        exists|now: u64| r == expiry_of(now, expires_in),
{
    let now = epoch_seconds();
    expires_at(now, expires_in)
}

/// Whether `credential` is the device-code credential after a refresh at
/// `now`: the new access token, its expiry, and the new refresh token when one
/// came back (else the old one).
pub open spec fn refreshed_as(
    credential: StoredCredential,
    client_id: String,
    tenant: String,
    refresh_token: String,
    refreshed: TokenResponse,
    now: u64,
) -> bool {
    credential matches StoredCredential::DeviceCode {
        client_id: c,
        tenant: t,
        refresh_token: rt,
        access_token: at,
        expires_at: e,
    } && c == client_id && t == tenant && rt == match refreshed.refresh_token {
        Some(new_token) => new_token,
        None => refresh_token,
    } && at == Some(refreshed.access_token) && e == expiry_of(now, refreshed.expires_in)
}

/// The device-code credential after a refresh at `now`.
pub fn refreshed_credential(
    client_id: &String,
    tenant: &String,
    refresh_token: &String,
    refreshed: &TokenResponse,
    now: u64,
) -> (r: StoredCredential)
    ensures
        refreshed_as(r, *client_id, *tenant, *refresh_token, *refreshed, now),
{
    StoredCredential::DeviceCode {
        client_id: client_id.clone(),
        tenant: tenant.clone(),
        refresh_token: match &refreshed.refresh_token {
            Some(new_token) => new_token.clone(),
            None => refresh_token.clone(),
        },
        access_token: Some(refreshed.access_token.clone()),
        expires_at: expires_at(now, refreshed.expires_in),
    }
}

/// The text of `bytes` with invalid UTF-8 replaced, as
/// `String::from_utf8_lossy` computes it.
pub uninterp spec fn utf8_lossy(bytes: Seq<u8>) -> Seq<char>;

/// `String::from_utf8_lossy`. The contract names the result, and states that
/// valid UTF-8 is decoded as it is.
#[verifier::external_body]
fn text_of_bytes(bytes: &[u8]) -> (r: String)
    ensures
        r@ == utf8_lossy(bytes@),
        vstd::utf8::valid_utf8(bytes@) ==> r@ == vstd::utf8::decode_utf8(bytes@),
{
    String::from_utf8_lossy(bytes).into_owned()
}

/// The message when Azure CLI printed no token.
pub open spec fn no_azure_cli_token_message() -> Seq<char> {
    "Azure CLI 沒有回傳 access token，請先執行 az login。"@
}

/// Reads the token from the output of `az account get-access-token`: a failed
/// run is an `AzureCli` error with its trimmed standard error, an empty
/// trimmed standard output is an `AzureCli` error too.
pub fn azure_cli_token_from_output(success: bool, stdout: &[u8], stderr: &[u8]) -> (r: Result<
    String,
    AdoctlError,
>)
    ensures
        !success ==> (r matches Err(AdoctlError::AzureCli(m)) && m@ == text::trim(utf8_lossy(stderr@))),
        success && text::trim(utf8_lossy(stdout@)).len() == 0 ==> (r matches Err(
            AdoctlError::AzureCli(m),
        ) && m@ == no_azure_cli_token_message()),
        success && text::trim(utf8_lossy(stdout@)).len() > 0 ==> (r matches Ok(token) && token@
            == text::trim(utf8_lossy(stdout@))),
{
    if !success {
        let err = text_of_bytes(stderr);
        return Err(AdoctlError::AzureCli(text::trimmed(err.as_str())));
    }
    let out = text_of_bytes(stdout);
    let token = text::trimmed(out.as_str());
    if token.as_str().is_empty() {
        return Err(AdoctlError::AzureCli("Azure CLI 沒有回傳 access token，請先執行 az login。".to_owned()));
    }
    Ok(token)
}

/// The message of a failed token request: the error body's description, else
/// its error code, else the whole response text.
pub fn auth_failure(status: u16, body: &str, parsed: Option<OAuthError>) -> (r: AdoctlError)
    ensures
        r matches AdoctlError::Api { status: s, message: m } && s == status && m@ == match parsed {
            Some(e) => match e.error_description {
                Some(d) => d@,
                None => e.error@,
            },
            None => body@,
        },
{
    let message = match parsed {
        Some(e) => match e.error_description {
            Some(d) => d,
            None => e.error,
        },
        None => body.to_owned(),
    };
    AdoctlError::Api { status, message }
}

/// The state of device-code polling.
#[derive(Debug, Clone, Copy, PartialEq, Eq, Structural)]
pub struct DevicePoll {
    pub started_at: u64,
    pub interval: u64,
    pub expires_in: u64,
}

/// What to do after the token endpoint answered with an OAuth error.
#[derive(Debug, Clone, PartialEq, Eq)]
pub enum PollReply {
    /// Wait this many seconds, then ask again.
    Wait(u64),
    /// Give up with this error.
    Fail(AdoctlError),
}

/// The message when the device code expired.
pub open spec fn device_code_timeout_message() -> Seq<char> {
    "device code 登入逾時，請重新執行 login。"@
}

impl DevicePoll {
    /// Polling that starts at `now`, at least every 5 seconds, for `expires_in` seconds.
    pub fn start(now: u64, interval: u64, expires_in: u64) -> (r: DevicePoll)
        ensures
            r.started_at == now,
            r.interval == if interval < 5 {
                5
            } else {
                interval
            },
            r.expires_in == expires_in,
    {
        DevicePoll { started_at: now, interval: if interval < 5 { 5 } else { interval }, expires_in }
    }

    /// Whether the device code has expired at `now`.
    pub open spec fn expired_at(self, now: u64) -> bool {
        (if now >= self.started_at {
            now - self.started_at
        } else {
            0
        }) > self.expires_in
    }

    /// Before each request: the timeout error once the code expired.
    pub fn check_expiry(&self, now: u64) -> (r: Result<(), AdoctlError>)
        ensures
            self.expired_at(now) ==> (r matches Err(AdoctlError::Authentication(m)) && m@
                == device_code_timeout_message()),
            !self.expired_at(now) ==> r is Ok,
    {
        if now.saturating_sub(self.started_at) > self.expires_in {
            Err(AdoctlError::Authentication("device code 登入逾時，請重新執行 login。".to_owned()))
        } else {
            Ok(())
        }
    }

    /// After an OAuth error with HTTP status `status`: keep waiting while the
    /// user has not finished (`authorization_pending`), wait 5 seconds longer
    /// from now on when asked to slow down (`slow_down`), and fail with the
    /// trimmed description (or code) on any other error.
    pub fn after_error(&mut self, status: u16, error: &OAuthError) -> (r: PollReply)
        ensures
            error.error@ == "authorization_pending"@ ==> *final(self) == *old(self) && r
                == PollReply::Wait(old(self).interval),
            error.error@ == "slow_down"@ ==> final(self).interval == if old(self).interval + 5
                > u64::MAX {
                u64::MAX
            } else {
                (old(self).interval + 5) as u64
            } && final(self).started_at == old(self).started_at && final(self).expires_in == old(
                self,
            ).expires_in && r == PollReply::Wait(final(self).interval),
            error.error@ != "authorization_pending"@ && error.error@ != "slow_down"@ ==> (*final(self)
                == *old(self) && (r matches PollReply::Fail(AdoctlError::Api { status: s, message: m })
                && s == status && m@ == text::trim(
                match error.error_description {
                    Some(d) => d@,
                    None => error.error@,
                },
            ))),
    {
        let code = text::chars_of(error.error.as_str());
        proof {
            reveal_strlit("authorization_pending");
            reveal_strlit("slow_down");
        }
        if text::spells(&code, "authorization_pending") {
            assert("authorization_pending"@.len() != "slow_down"@.len());
            PollReply::Wait(self.interval)
        } else if text::spells(&code, "slow_down") {
            self.interval = self.interval.saturating_add(5);
            PollReply::Wait(self.interval)
        } else {
            let message = match &error.error_description {
                Some(d) => text::trimmed(d.as_str()),
                None => text::trimmed(error.error.as_str()),
            };
            PollReply::Fail(AdoctlError::Api { status, message })
        }
    }
}

/// The endpoint `https://login.microsoftonline.com/<tenant>/oauth2/v2.0/<endpoint>`.
pub fn oauth_url(tenant: &str, endpoint: &str) -> (r: String)
    ensures
        r@ == "https://login.microsoftonline.com/"@ + tenant@ + "/oauth2/v2.0/"@ + endpoint@,
{
    let mut url = "https://login.microsoftonline.com/".to_owned();
    url.append(tenant);
    url.append("/oauth2/v2.0/");
    url.append(endpoint);
    url
}

/// The form of a device-code request.
pub fn device_code_form(client_id: &str) -> (r: Vec<(String, String)>)
    ensures
        r@.len() == 2,
        r@[0].0@ == "client_id"@ && r@[0].1@ == client_id@,
        r@[1].0@ == "scope"@ && r@[1].1@ == AZURE_DEVOPS_SCOPE@,
{
    vec![crate::request::pair("client_id", client_id), crate::request::pair("scope", AZURE_DEVOPS_SCOPE)]
}

/// The grant type of device-code polling.
pub const DEVICE_CODE_GRANT: &'static str = "urn:ietf:params:oauth:grant-type:device_code";

/// The form of one device-code poll.
pub fn device_token_form(client_id: &str, device_code: &str) -> (r: Vec<(String, String)>)
    ensures
        r@.len() == 3,
        r@[0].0@ == "grant_type"@ && r@[0].1@ == DEVICE_CODE_GRANT@,
        r@[1].0@ == "client_id"@ && r@[1].1@ == client_id@,
        r@[2].0@ == "device_code"@ && r@[2].1@ == device_code@,
{
    vec![
        crate::request::pair("grant_type", DEVICE_CODE_GRANT),
        crate::request::pair("client_id", client_id),
        crate::request::pair("device_code", device_code),
    ]
}

/// The form of a token refresh.
pub fn refresh_token_form(client_id: &str, refresh_token: &str) -> (r: Vec<(String, String)>)
    ensures
        r@.len() == 4,
        r@[0].0@ == "grant_type"@ && r@[0].1@ == "refresh_token"@,
        r@[1].0@ == "client_id"@ && r@[1].1@ == client_id@,
        r@[2].0@ == "refresh_token"@ && r@[2].1@ == refresh_token@,
        r@[3].0@ == "scope"@ && r@[3].1@ == AZURE_DEVOPS_SCOPE@,
{
    vec![
        crate::request::pair("grant_type", "refresh_token"),
        crate::request::pair("client_id", client_id),
        crate::request::pair("refresh_token", refresh_token),
        crate::request::pair("scope", AZURE_DEVOPS_SCOPE),
    ]
}

/// A token that a refresh at `now` brought, valid for more than a minute, is
/// sent as it is by a request made at that time: no second refresh follows.
pub proof fn lemma_refreshed_token_is_used(
    credential: StoredCredential,
    client_id: String,
    tenant: String,
    refresh_token: String,
    refreshed: TokenResponse,
    now: u64,
)
    requires
        refreshed_as(credential, client_id, tenant, refresh_token, refreshed, now),
        refreshed.expires_in matches Some(seconds) && seconds > 60 && now + seconds <= u64::MAX,
    ensures
        credential matches StoredCredential::DeviceCode { access_token: Some(token), expires_at: Some(at), .. }
            && token == refreshed.access_token && token_is_fresh(now, at),
{
}

/// Whether two credentials are of the same kind.
pub open spec fn same_kind(a: StoredCredential, b: StoredCredential) -> bool {
    ||| (a is Pat && b is Pat)
    ||| (a is AzureCli && b is AzureCli)
    ||| (a is DeviceCode && b is DeviceCode)
}

/// What is told about a credential names its kind only: two credentials of
/// the same kind, whatever their tokens, get the same summary, fit the same
/// methods and get the same refusal of a mismatched login.
pub proof fn lemma_descriptions_name_no_secret(a: StoredCredential, b: StoredCredential, method: AuthMethodArg)
    requires
        same_kind(a, b),
    ensures
        a.summary_text() == b.summary_text(),
        credential_fits(a, method) == credential_fits(b, method),
        method_mismatch_message(a, method) == method_mismatch_message(b, method),
{
}

/// Which environment variable supplies the PAT depends only on which values
/// are blank, not on the token text.
pub proof fn lemma_pat_source_ignores_token_text(
    adoctl_pat: Option<String>,
    azure_devops_ext_pat: Option<String>,
    other_adoctl_pat: Option<String>,
    other_azure_devops_ext_pat: Option<String>,
)
    requires
        usable_token(adoctl_pat) == usable_token(other_adoctl_pat),
        usable_token(azure_devops_ext_pat) == usable_token(other_azure_devops_ext_pat),
    ensures
        match (
            pat_from_values(adoctl_pat, azure_devops_ext_pat),
            pat_from_values(other_adoctl_pat, other_azure_devops_ext_pat),
        ) {
            (Some((source, _)), Some((other_source, _))) => source == other_source,
            (None, None) => true,
            _ => false,
        },
{
}

/// Whether two answers of a store differ at most in secret text: the same
/// error, nothing saved in both, or saved credentials of the same kind.
pub open spec fn alike_answers(
    a: Result<Option<StoredCredential>, AdoctlError>,
    b: Result<Option<StoredCredential>, AdoctlError>,
) -> bool {
    match (a, b) {
        (Err(x), Err(y)) => x == y,
        (Ok(None), Ok(None)) => true,
        (Ok(Some(c)), Ok(Some(d))) => same_kind(c, d),
        _ => false,
    }
}

/// Whether two errors are the same: the same variant with the same text.
pub open spec fn same_error(x: AdoctlError, y: AdoctlError) -> bool {
    match (x, y) {
        (AdoctlError::Authentication(m), AdoctlError::Authentication(n)) => m@ == n@,
        _ => x == y,
    }
}

/// A credential lookup does not depend on secret text: store answers that
/// differ only in tokens give the same error, or credentials of the same kind
/// with the same summary (the source that diagnostics name).
pub proof fn lemma_lookup_ignores_secrets(
    a: Result<Option<StoredCredential>, AdoctlError>,
    b: Result<Option<StoredCredential>, AdoctlError>,
    method: Option<AuthMethodArg>,
    ra: Result<(StoredCredential, CredentialKey), AdoctlError>,
    rb: Result<(StoredCredential, CredentialKey), AdoctlError>,
)
    requires
        alike_answers(a, b),
        answers_lookup(a, method, ra),
        answers_lookup(b, method, rb),
    ensures
        match (ra, rb) {
            (Err(x), Err(y)) => same_error(x, y),
            (Ok((c, _)), Ok((d, _))) => same_kind(c, d) && c.summary_text() == d.summary_text(),
            _ => false,
        },
{
    match (a, b) {
        (Ok(Some(c)), Ok(Some(d))) => {
            if let Some(m) = method {
                lemma_descriptions_name_no_secret(c, d, m);
            }
        },
        _ => {},
    }
}

/// A cached device-code token counts as fresh exactly while more than a
/// minute is left before it expires.
pub proof fn lemma_cached_token_window(now: u64, expires_at: u64)
    ensures
        token_is_fresh(now, expires_at) <==> expires_at - now > 60,
{
}

/// The PAT from the environment: a non-blank `ADOCTL_PAT` wins, trimmed; else a
/// non-blank `AZURE_DEVOPS_EXT_PAT`, trimmed; with both blank or absent there
/// is none.
pub proof fn lemma_pat_precedence(adoctl_pat: Option<String>, azure_devops_ext_pat: Option<String>)
    ensures
        (adoctl_pat matches Some(a) && text::trim(a@).len() > 0) ==> pat_from_values(
            adoctl_pat,
            azure_devops_ext_pat,
        ) == Some((PatEnvironmentSource::AdoctlPat, text::trim(adoctl_pat->0@))),
        !(adoctl_pat matches Some(a) && text::trim(a@).len() > 0) && (azure_devops_ext_pat matches Some(e)
            && text::trim(e@).len() > 0) ==> pat_from_values(adoctl_pat, azure_devops_ext_pat) == Some(
            (PatEnvironmentSource::AzureDevopsExtPat, text::trim(azure_devops_ext_pat->0@)),
        ),
        !(adoctl_pat matches Some(a) && text::trim(a@).len() > 0) && !(azure_devops_ext_pat matches Some(e)
            && text::trim(e@).len() > 0) ==> pat_from_values(adoctl_pat, azure_devops_ext_pat) is None,
{
}

/// A saved credential fits a method exactly when it is of that method's kind.
pub proof fn lemma_credential_fits_its_kind(credential: StoredCredential, method: AuthMethodArg)
    ensures
        credential_fits(credential, method) <==> (
            (credential is Pat && method == AuthMethodArg::Pat)
            || (credential is AzureCli && method == AuthMethodArg::AzureCli)
            || (credential is DeviceCode && method == AuthMethodArg::DeviceCode)
        ),
{
}

} // verus!
