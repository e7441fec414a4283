//! The organization a command acts on and the settings taken from the command line.

use vstd::prelude::*;
use crate::cli::{AuthMethodArg, Cli, OutputArg};
use crate::error::AdoctlError;
use crate::text;

verus! {

/// What `url::Url::parse` makes of `input`: the serialized URL, its host and
/// its path segments (no segments where the URL cannot be a base), or the text
/// of the parse error.
pub uninterp spec fn parsed_url(input: Seq<char>) -> Result<
    (Seq<char>, Option<Seq<char>>, Seq<Seq<char>>),
    Seq<char>,
>;

/// Parses `input` with `url::Url::parse` and reads the serialized URL
/// (`Url::as_str`), the host (`Url::host_str`) and the path segments
/// (`Url::path_segments`) of the result. The contract claims only that the
/// outcome is the one `parsed_url` names for `input`.
#[verifier::external_body]
fn url_parts(input: &str) -> (r: Result<(String, Option<String>, Vec<String>), String>)
    ensures
        match r {
            Ok(parts) => parsed_url(input@) is Ok && parsed_url(input@)->Ok_0 == (
                parts.0@,
                parts.1.deep_view(),
                parts.2.deep_view(),
            ),
            Err(message) => parsed_url(input@) is Err && parsed_url(input@)->Err_0 == message@,
        },
{
    match url::Url::parse(input) {
        Ok(url) => Ok((
            url.as_str().to_owned(),
            url.host_str().map(str::to_owned),
            url.path_segments().map(|segments| segments.map(str::to_owned).collect()).unwrap_or_default(),
        )),
        Err(error) => Err(error.to_string()),
    }
}

/// The result of reading an organization argument.
pub enum OrganizationOutcome {
    /// The organization's name.
    Name(Seq<char>),
    /// `InvalidOrganization` with this text.
    Invalid(Seq<char>),
    /// `Url` with this message.
    UrlFailure(Seq<char>),
}

/// `s` without its trailing `c` characters (`str::trim_end_matches`).
pub open spec fn strip_trailing(s: Seq<char>, c: char) -> Seq<char>
    decreases s.len(),
{
    if s.len() > 0 && s.last() == c {
        strip_trailing(s.drop_last(), c)
    } else {
        s
    }
}

/// The first non-empty segment.
pub open spec fn first_nonempty(segments: Seq<Seq<char>>) -> Option<Seq<char>>
    decreases segments.len(),
{
    if segments.len() == 0 {
        None
    } else if segments[0].len() > 0 {
        Some(segments[0])
    } else {
        first_nonempty(segments.drop_first())
    }
}

/// A host that serves organizations under its first path segment.
pub open spec fn is_path_style_host(host: Seq<char>) -> bool {
    ||| text::same_ignoring_ascii_case(host, "dev.azure.com"@)
    ||| text::same_ignoring_ascii_case(host, "vsaex.dev.azure.com"@)
    ||| text::same_ignoring_ascii_case(host, "vssps.dev.azure.com"@)
}

/// The organization that an Azure DevOps URL names.
pub open spec fn organization_in_url(url: Seq<char>) -> OrganizationOutcome {
    organization_from_parts(url, parsed_url(url))
}

/// The organization that the URL `url` names, given what parsing it gave: the
/// parser's error, or the serialized URL, its host and its path segments. A
/// path-style host names the organization by the first non-empty segment,
/// `<org>.visualstudio.com` by the host; anything else is invalid.
pub open spec fn organization_from_parts(
    url: Seq<char>,
    parsed: Result<(Seq<char>, Option<Seq<char>>, Seq<Seq<char>>), Seq<char>>,
) -> OrganizationOutcome {
    match parsed {
        Err(message) => OrganizationOutcome::UrlFailure(message),
        Ok((_, host, segments)) => match host {
            None => OrganizationOutcome::Invalid(url),
            Some(h) => if is_path_style_host(h) {
                match first_nonempty(segments) {
                    Some(name) => OrganizationOutcome::Name(name),
                    None => OrganizationOutcome::Invalid(url),
                }
            } else if text::has_suffix(h, ".visualstudio.com"@) {
                OrganizationOutcome::Name(h.subrange(0, h.len() - 17))
            } else {
                OrganizationOutcome::Invalid(url)
            },
        },
    }
}

/// The organization that a `--org` argument names: a bare name, or a
/// `dev.azure.com` / `*.visualstudio.com` URL; a blank argument, an empty name
/// or a name with `/` is invalid.
pub open spec fn organization_named(input: Seq<char>) -> OrganizationOutcome {
    let t = strip_trailing(text::trim(input), '/');
    if t.len() == 0 {
        OrganizationOutcome::Invalid(input)
    } else {
        let outcome = if text::has_prefix(t, "http://"@) || text::has_prefix(t, "https://"@) {
            organization_in_url(t)
        } else {
            OrganizationOutcome::Name(t)
        };
        match outcome {
            OrganizationOutcome::Name(name) => if name.len() == 0 || name.contains('/') {
                OrganizationOutcome::Invalid(input)
            } else {
                OrganizationOutcome::Name(name)
            },
            other => other,
        }
    }
}

/// The Azure DevOps services that the tool calls.
#[derive(Debug, Clone, Copy, PartialEq, Eq, Structural)]
pub enum AdoService {
    Core,
    Entitlements,
    Graph,
}

/// An Azure DevOps organization, with an optional base URL that replaces every
/// service's own (for tests against a local server).
#[derive(Debug, Clone, PartialEq, Eq)]
pub struct Organization {
    pub name: String,
    pub base_url_override: Option<String>,
}

/// `value` with a `/` appended unless it ends with one.
pub open spec fn with_trailing_slash(value: Seq<char>) -> Seq<char> {
    if value.len() > 0 && value.last() == '/' {
        value
    } else {
        value.push('/')
    }
}

/// The base URL of `service` for organization `name`.
pub open spec fn service_base_of(name: Seq<char>, base_url_override: Option<Seq<char>>, service: AdoService) -> Seq<char> {
    match base_url_override {
        Some(base) => with_trailing_slash(base),
        None => match service {
            AdoService::Core => "https://dev.azure.com/"@ + name + "/"@,
            AdoService::Entitlements => "https://vsaex.dev.azure.com/"@ + name + "/"@,
            AdoService::Graph => "https://vssps.dev.azure.com/"@ + name + "/"@,
        },
    }
}

fn first_nonempty_segment(segments: &Vec<String>) -> (r: Option<&String>)
    ensures
        match r {
            Some(s) => first_nonempty(segments.deep_view()) == Some(s@),
            None => first_nonempty(segments.deep_view()) is None,
        },
{
    let ghost all = segments.deep_view();
    let mut i: usize = 0;
    assert(all.subrange(0, all.len() as int) =~= all);
    while i < segments.len()
        invariant
            i <= segments.len(),
            all == segments.deep_view(),
            first_nonempty(all) == first_nonempty(all.subrange(i as int, all.len() as int)),
        decreases segments.len() - i,
    {
        let ghost rest = all.subrange(i as int, all.len() as int);
        assert(rest[0] == segments[i as int]@);
        if !segments[i].as_str().is_empty() {
            return Some(&segments[i]);
        }
        assert(rest.drop_first() =~= all.subrange(i + 1, all.len() as int));
        i += 1;
    }
    assert(all.subrange(i as int, all.len() as int) =~= Seq::<Seq<char>>::empty());
    None
}

/// The parts of a parse outcome as plain values.
pub open spec fn parts_view(parsed: Result<(String, Option<String>, Vec<String>), String>) -> Result<
    (Seq<char>, Option<Seq<char>>, Seq<Seq<char>>),
    Seq<char>,
> {
    match parsed {
        Ok((serialized, host, segments)) => Ok((serialized@, host.deep_view(), segments.deep_view())),
        Err(message) => Err(message@),
    }
}

/// Reads the organization out of what parsing the URL `url` gave: the
/// organization's name, `InvalidOrganization` with the URL, or `Url` with the
/// parser's message.
pub fn organization_from_url_parts(
    url: &str,
    parsed: Result<(String, Option<String>, Vec<String>), String>,
) -> (r: Result<String, AdoctlError>)
    ensures
        match r {
            Ok(name) => organization_from_parts(url@, parts_view(parsed)) == OrganizationOutcome::Name(name@),
            Err(AdoctlError::InvalidOrganization(v)) => organization_from_parts(url@, parts_view(parsed))
                == OrganizationOutcome::Invalid(v@),
            Err(AdoctlError::Url(m)) => organization_from_parts(url@, parts_view(parsed))
                == OrganizationOutcome::UrlFailure(m@),
            Err(_) => false,
        },
{
    let (_, host, segments) = match parsed {
        Ok(parts) => parts,
        Err(message) => { return Err(AdoctlError::Url(message)); },
    };
    let host = match host {
        Some(h) => h,
        None => { return Err(AdoctlError::InvalidOrganization(url.to_owned())); },
    };
    if text::same_text_ignoring_ascii_case(host.as_str(), "dev.azure.com")
        || text::same_text_ignoring_ascii_case(host.as_str(), "vsaex.dev.azure.com")
        || text::same_text_ignoring_ascii_case(host.as_str(), "vssps.dev.azure.com") {
        return match first_nonempty_segment(&segments) {
            Some(name) => Ok(name.as_str().to_owned()),
            None => Err(AdoctlError::InvalidOrganization(url.to_owned())),
        };
    }
    let h = text::chars_of(host.as_str());
    let suffix = text::chars_of(".visualstudio.com");
    proof {
        reveal_strlit(".visualstudio.com");
    }
    if text::chars_end_with(&h, &suffix) {
        return Ok(text::string_of_range(&h, 0, h.len() - suffix.len()));
    }
    Err(AdoctlError::InvalidOrganization(url.to_owned()))
}

/// Reads the organization out of an Azure DevOps URL.
fn organization_name_from_url(url: &str) -> (r: Result<String, AdoctlError>)
    ensures
        match r {
            Ok(name) => organization_in_url(url@) == OrganizationOutcome::Name(name@),
            Err(AdoctlError::InvalidOrganization(v)) => organization_in_url(url@)
                == OrganizationOutcome::Invalid(v@),
            Err(AdoctlError::Url(m)) => organization_in_url(url@) == OrganizationOutcome::UrlFailure(m@),
            Err(_) => false,
        },
{
    let parsed = url_parts(url);
    assert(parts_view(parsed) == parsed_url(url@));
    organization_from_url_parts(url, parsed)
}

/// `v@` without its trailing `c` characters.
fn strip_trailing_chars(v: &Vec<char>, c: char) -> (r: usize)
    ensures
        r <= v.len(),
        v@.subrange(0, r as int) == strip_trailing(v@, c),
{
    let mut end = v.len();
    assert(v@.subrange(0, end as int) =~= v@);
    while end > 0 && v[end - 1] == c
        invariant
            end <= v.len(),
            strip_trailing(v@, c) == strip_trailing(v@.subrange(0, end as int), c),
        decreases end,
    {
        assert(v@.subrange(0, end as int).drop_last() =~= v@.subrange(0, end - 1));
        end -= 1;
    }
    end
}

/// Whether `c` occurs in `v@`.
fn has_char(v: &Vec<char>, c: char) -> (r: bool)
    ensures
        r == v@.contains(c),
{
    let mut i: usize = 0;
    while i < v.len()
        invariant
            i <= v.len(),
            forall|j: int| 0 <= j < i ==> v@[j] != c,
        decreases v.len() - i,
    {
        if v[i] == c {
            return true;
        }
        i += 1;
    }
    false
}

impl Organization {
    /// The base URL override, if any.
    pub open spec fn override_text(&self) -> Option<Seq<char>> {
        match self.base_url_override {
            Some(b) => Some(b@),
            None => None,
        }
    }

    /// Reads `--org`: a bare organization name or an Azure DevOps URL
    /// (`https://dev.azure.com/<org>`, `https://<org>.visualstudio.com`), with
    /// surrounding white space and trailing `/` ignored.
    pub fn parse(input: &str, base_url_override: Option<String>) -> (r: Result<Organization, AdoctlError>)
        ensures
            match r {
                Ok(org) => organization_named(input@) == OrganizationOutcome::Name(org.name@)
                    && org.base_url_override == base_url_override,
                Err(AdoctlError::InvalidOrganization(v)) => organization_named(input@)
                    == OrganizationOutcome::Invalid(v@),
                Err(AdoctlError::Url(m)) => organization_named(input@)
                    == OrganizationOutcome::UrlFailure(m@),
                Err(_) => false,
            },
    {
        let v = text::chars_of(input);
        let (a, b) = text::trim_bounds(&v);
        let t = text::string_of_range(&v, a, b);
        let tv = text::chars_of(t.as_str());
        let end = strip_trailing_chars(&tv, '/');
        let trimmed = text::string_of_range(&tv, 0, end);
        if end == 0 {
            return Err(AdoctlError::InvalidOrganization(input.to_owned()));
        }
        let name = if text::text_starts_with(trimmed.as_str(), "http://") || text::text_starts_with(
            trimmed.as_str(),
            "https://",
        ) {
            organization_name_from_url(trimmed.as_str())?
        } else {
            trimmed
        };
        let nv = text::chars_of(name.as_str());
        if nv.len() == 0 || has_char(&nv, '/') {
            return Err(AdoctlError::InvalidOrganization(input.to_owned()));
        }
        Ok(Organization { name, base_url_override })
    }

    /// The base URL of `service`: the override with a trailing `/`, or the
    /// service's own host with the organization as first path segment.
    pub fn service_base_text(&self, service: AdoService) -> (r: String)
        ensures
            r@ == service_base_of(self.name@, self.override_text(), service),
    {
        match &self.base_url_override {
            Some(base) => {
                let v = text::chars_of(base.as_str());
                let mut out = base.clone();
                if v.len() > 0 && v[v.len() - 1] == '/' {
                    out
                } else {
                    text::push_char(&mut out, '/');
                    out
                }
            },
            None => {
                let mut out = match service {
                    AdoService::Core => "https://dev.azure.com/".to_owned(),
                    AdoService::Entitlements => "https://vsaex.dev.azure.com/".to_owned(),
                    AdoService::Graph => "https://vssps.dev.azure.com/".to_owned(),
                };
                out.append(self.name.as_str());
                text::push_char(&mut out, '/');
                proof {
                    reveal_strlit("/");
                    assert("/"@ =~= seq!['/']);
                }
                out
            },
        }
    }

    /// The base URL of `service`, parsed: its serialized form, or a `Url`
    /// error with the parser's message.
    pub fn service_base(&self, service: AdoService) -> (r: Result<String, AdoctlError>)
        ensures
            match parsed_url(service_base_of(self.name@, self.override_text(), service)) {
                Ok((serialized, _, _)) => r matches Ok(v) && v@ == serialized,
                Err(message) => r matches Err(AdoctlError::Url(m)) && m@ == message,
            },
    {
        let base = self.service_base_text(service);
        match url_parts(base.as_str()) {
            Ok((serialized, _, _)) => Ok(serialized),
            Err(message) => Err(AdoctlError::Url(message)),
        }
    }
}

/// The settings that every command shares.
#[derive(Debug, Clone)]
pub struct AppConfig {
    pub organization: Organization,
    pub profile: String,
    pub output: OutputArg,
    pub auth_method: Option<AuthMethodArg>,
}

impl AppConfig {
    /// Takes the organization (required), profile, output format and
    /// authentication method from the command line.
    pub fn from_cli(cli: &Cli) -> (r: Result<AppConfig, AdoctlError>)
        ensures
            match cli.org {
                None => r matches Err(AdoctlError::MissingOrganization),
                Some(org) => match r {
                    Ok(config) => organization_named(org@) == OrganizationOutcome::Name(
                        config.organization.name@,
                    ) && config.organization.override_text() == (match cli.base_url {
                        Some(b) => Some(b@),
                        None => None::<Seq<char>>,
                    }) && config.profile@ == cli.profile@ && config.output == cli.output
                        && config.auth_method == cli.auth_method,
                    Err(AdoctlError::InvalidOrganization(v)) => organization_named(org@)
                        == OrganizationOutcome::Invalid(v@),
                    Err(AdoctlError::Url(m)) => organization_named(org@)
                        == OrganizationOutcome::UrlFailure(m@),
                    Err(_) => false,
                },
            },
    {
        let org = match &cli.org {
            Some(o) => o,
            None => { return Err(AdoctlError::MissingOrganization); },
        };
        let base_url = match &cli.base_url {
            Some(b) => Some(b.clone()),
            None => None,
        };
        let organization = Organization::parse(org.as_str(), base_url)?;
        Ok(AppConfig {
            organization,
            profile: cli.profile.clone(),
            output: cli.output,
            auth_method: cli.auth_method,
        })
    }
}

proof fn lemma_trim_fixed(s: Seq<char>)
    requires
        s.len() > 0,
        !text::is_space(s[0]),
        !text::is_space(s.last()),
    ensures
        text::trim(s) == s,
{
    assert(text::trim_start(s) == s);
    assert(text::trim_end(s) == s);
}

/// A bare organization name and its `https://dev.azure.com/<name>` URL name
/// the same organization, when the URL parses to that host with the name as
/// its first path segment.
pub proof fn lemma_url_names_same_organization(name: Seq<char>)
    requires
        name.len() > 0,
        !name.contains('/'),
        !text::is_space(name[0]),
        !text::is_space(name.last()),
        parsed_url("https://dev.azure.com/"@ + name) matches Ok((_, Some(host), segments)) && host
            == "dev.azure.com"@ && first_nonempty(segments) == Some(name),
    ensures
        organization_named(name) == OrganizationOutcome::Name(name),
        organization_named("https://dev.azure.com/"@ + name) == OrganizationOutcome::Name(name),
{
    let url = "https://dev.azure.com/"@ + name;
    reveal_strlit("https://dev.azure.com/");
    reveal_strlit("http://");
    reveal_strlit("https://");
    reveal_strlit("dev.azure.com");
    lemma_trim_fixed(name);
    assert(strip_trailing(name, '/') == name);
    assert(!text::has_prefix(name, "http://"@)) by {
        if text::has_prefix(name, "http://"@) {
            assert(name[5] == "http://"@[5]);
        }
    }
    assert(!text::has_prefix(name, "https://"@)) by {
        if text::has_prefix(name, "https://"@) {
            assert(name[6] == "https://"@[6]);
        }
    }
    assert(url.last() == name.last());
    assert(url[0] == 'h');
    lemma_trim_fixed(url);
    assert(strip_trailing(url, '/') == url);
    assert(url.subrange(0, 8) =~= "https://"@);
    assert(text::has_prefix(url, "https://"@));
    assert(text::same_ignoring_ascii_case("dev.azure.com"@, "dev.azure.com"@));
    assert(is_path_style_host("dev.azure.com"@));
}

} // verus!
