//! Projects: listing by continuation token, filtering, and the lookups that
//! adding a user to a project group or removing one takes.

use vstd::prelude::*;
use crate::collect::{keep_matching, Selector};
use crate::config::AdoService;
use crate::error::{map_not_found, AdoctlError};
use crate::identity::UserIdentifier;
use crate::project_state::ProjectStateFilter;
use crate::request::{pair, ApiRequest, HttpMethod};
use crate::text;
use crate::users::UserEntitlement;

verus! {

pub const CORE_API_VERSION: &'static str = "7.1";

pub const GRAPH_API_VERSION: &'static str = "7.1-preview.1";

/// A project of the organization.
#[derive(Debug, Clone, Default)]
pub struct Project {
    pub id: String,
    pub name: String,
    pub description: String,
    pub state: String,
    pub visibility: String,
    pub url: String,
    pub last_update_time: String,
}

/// A group of the graph API.
#[derive(Debug, Clone, Default)]
pub struct GraphGroup {
    pub descriptor: String,
    pub display_name: String,
    pub principal_name: String,
}

/// The continuation token of a response: the header value, trimmed, unless blank.
pub open spec fn continuation_token_of(header: Option<Seq<char>>) -> Option<Seq<char>> {
    match header {
        Some(h) => if text::trim(h).len() > 0 {
            Some(text::trim(h))
        } else {
            None
        },
        None => None,
    }
}

/// Reads the `x-ms-continuationtoken` header value.
pub fn continuation_token_from_header(header: Option<&str>) -> (r: Option<String>)
    ensures
        match r {
            Some(t) => continuation_token_of(crate::users::optional_text(header)) == Some(t@),
            None => continuation_token_of(crate::users::optional_text(header)) is None,
        },
{
    match header {
        Some(h) => {
            let t = text::trimmed(h);
            if t.as_str().is_empty() {
                None
            } else {
                Some(t)
            }
        },
        None => None,
    }
}

/// The query of a project list page.
pub open spec fn projects_query(state: ProjectStateFilter, token: Option<Seq<char>>) -> Seq<(Seq<char>, Seq<char>)> {
    let base = seq![
        ("api-version"@, CORE_API_VERSION@),
        ("$top"@, "100"@),
        ("stateFilter"@, state.api_text()),
    ];
    match token {
        Some(t) => base.push(("continuationToken"@, t)),
        None => base,
    }
}

/// Reading the project list page by page: each page's continuation token asks
/// for the next, and a page without one is the last.
#[derive(Debug)]
pub struct ProjectListing {
    state: ProjectStateFilter,
    token: Option<String>,
    projects: Vec<Project>,
    done: bool,
}

impl ProjectListing {
    /// The projects read so far, in page order.
    pub closed spec fn projects_read(&self) -> Seq<Project> {
        self.projects@
    }

    /// The token for the next page.
    pub closed spec fn next_token(&self) -> Option<Seq<char>> {
        match self.token {
            Some(t) => Some(t@),
            None => None,
        }
    }

    /// The state filter.
    pub closed spec fn state_filter(&self) -> ProjectStateFilter {
        self.state
    }

    /// Whether the last page was read.
    pub closed spec fn finished(&self) -> bool {
        self.done
    }

    pub fn new(state: ProjectStateFilter) -> (r: ProjectListing)
        ensures
            r.projects_read() == Seq::<Project>::empty(),
            r.next_token() is None,
            r.state_filter() == state,
            !r.finished(),
    {
        ProjectListing { state, token: None, projects: Vec::new(), done: false }
    }

    /// The request for the next page, or `None` once the last was read.
    pub fn next_request(&self) -> (r: Option<ApiRequest>)
        ensures
            self.finished() ==> r is None,
            !self.finished() ==> (r matches Some(req) && req.describes(
                HttpMethod::Get,
                AdoService::Core,
                "_apis/projects"@,
                projects_query(self.state_filter(), self.next_token()),
            )),
    {
        if self.done {
            return None;
        }
        let mut query: Vec<(String, String)> = Vec::new();
        query.push(pair("api-version", CORE_API_VERSION));
        query.push(pair("$top", "100"));
        query.push(pair("stateFilter", self.state.api_value()));
        let ghost base = query@;
        match &self.token {
            Some(t) => query.push(pair("continuationToken", t.as_str())),
            None => {},
        }
        let req = ApiRequest { method: HttpMethod::Get, service: AdoService::Core, path: "_apis/projects".to_owned(), query };
        assert(crate::request::query_text(req.query@) =~= projects_query(self.state_filter(), self.next_token()));
        Some(req)
    }

    /// Takes in a page and the raw continuation token header of its response.
    pub fn receive_page(&mut self, page: Vec<Project>, continuation_header: Option<&str>)
        requires
            !old(self).finished(),
        ensures
            final(self).projects_read() == old(self).projects_read() + page@,
            final(self).next_token() == continuation_token_of(crate::users::optional_text(continuation_header)),
            final(self).finished() == final(self).next_token() is None,
            final(self).state_filter() == old(self).state_filter(),
    {
        let mut page = page;
        self.projects.append(&mut page);
        self.token = continuation_token_from_header(continuation_header);
        self.done = self.token.is_none();
    }

    /// All projects read.
    pub fn into_projects(self) -> (r: Vec<Project>)
        ensures
            r@ == self.projects_read(),
    {
        self.projects
    }
}

/// The search key of the project filter: trimmed, Unicode-lower-cased, and
/// none at all when blank.
pub open spec fn project_search_key(search: Option<Seq<char>>) -> Option<Seq<char>> {
    match search {
        Some(s) => if text::trim(s).len() > 0 {
            Some(text::unicode_lowercase(text::trim(s)))
        } else {
            None
        },
        None => None,
    }
}

/// Whether name, description or id, lower-cased, contains the key.
pub open spec fn project_selected(p: Project, key: Option<Seq<char>>) -> bool {
    match key {
        Some(k) => text::has_infix(text::unicode_lowercase(p.name@), k) || text::has_infix(
            text::unicode_lowercase(p.description@),
            k,
        ) || text::has_infix(text::unicode_lowercase(p.id@), k),
        None => true,
    }
}

/// The project search looks at name, description and id: with a non-blank
/// search text, a project is kept exactly when one of the three, lower-cased,
/// contains the trimmed search text, lower-cased; a blank search keeps every
/// project.
pub proof fn lemma_project_search_fields(p: Project, search: Seq<char>)
    ensures
        text::trim(search).len() > 0 ==> (project_selected(p, project_search_key(Some(search))) <==> (
            text::has_infix(text::unicode_lowercase(p.name@), text::unicode_lowercase(text::trim(search)))
            || text::has_infix(
                text::unicode_lowercase(p.description@),
                text::unicode_lowercase(text::trim(search)),
            )
            || text::has_infix(text::unicode_lowercase(p.id@), text::unicode_lowercase(text::trim(search)))
        )),
        text::trim(search).len() == 0 ==> project_selected(p, project_search_key(Some(search))),
{
}

/// The project search filter.
pub struct ProjectFilter {
    pub key: Option<Vec<char>>,
}

fn lower_contains(field: &String, key: &Vec<char>) -> (r: bool)
    ensures
        r == text::has_infix(text::unicode_lowercase(field@), key@),
{
    let l = text::lowercase(field.as_str());
    text::chars_contain(&text::chars_of(l.as_str()), key)
}

impl Selector<Project> for ProjectFilter {
    open spec fn accepts(&self, p: Project) -> bool {
        project_selected(
            p,
            match self.key {
                Some(k) => Some(k@),
                None => None,
            },
        )
    }

    fn test(&self, p: &Project) -> (b: bool) {
        match &self.key {
            Some(k) => lower_contains(&p.name, k) || lower_contains(&p.description, k) || lower_contains(&p.id, k),
            None => true,
        }
    }
}

/// The projects, in order, whose name, description or id contains the search
/// text, ignoring case.
pub fn select_projects(projects: Vec<Project>, search: Option<&str>) -> (r: Vec<Project>)
    ensures
        r@ == projects@.filter(|p: Project| project_selected(p, project_search_key(crate::users::optional_text(search)))),
{
    let key: Option<Vec<char>> = match search {
        Some(s) => {
            let t = text::trimmed(s);
            if t.as_str().is_empty() {
                None
            } else {
                Some(text::chars_of(text::lowercase(t.as_str()).as_str()))
            }
        },
        None => None,
    };
    let filter = ProjectFilter { key };
    let r = keep_matching(projects, &filter);
    proof {
        assert((|p: Project| filter.accepts(p)) =~= (|p: Project|
            project_selected(p, project_search_key(crate::users::optional_text(search)))));
    }
    r
}

/// The `application/x-www-form-urlencoded` spelling of one byte.
pub open spec fn form_byte(b: u8) -> Seq<char> {
    if (b == 42 || b == 45 || b == 46 || (48 <= b && b <= 57) || (65 <= b && b <= 90) || b == 95 || (
    97 <= b && b <= 122)) {
        seq![(b as u32) as char]
    } else if b == 32 {
        seq!['+']
    } else {
        seq!['%', hex_digit(b / 16), hex_digit(b % 16)]
    }
}

/// An upper-case hexadecimal digit.
pub open spec fn hex_digit(d: u8) -> char {
    if d < 10 {
        ((d + 48) as u32) as char
    } else {
        ((d + 55) as u32) as char
    }
}

/// The `application/x-www-form-urlencoded` spelling of a byte string.
pub open spec fn form_encoded(bytes: Seq<u8>) -> Seq<char>
    decreases bytes.len(),
{
    if bytes.len() == 0 {
        Seq::empty()
    } else {
        form_encoded(bytes.drop_last()) + form_byte(bytes.last())
    }
}

/// `url::form_urlencoded::byte_serialize` of the UTF-8 bytes of `value`: `*`,
/// `-`, `.`, `_`, digits and ASCII letters are kept, a space becomes `+`, every
/// other byte `%XX` in upper-case hexadecimal. The contract states exactly that.
#[verifier::external_body]
fn url_encoded(value: &str) -> (r: String)
    ensures
        r@ == form_encoded(vstd::utf8::encode_utf8(value@)),
{
    url::form_urlencoded::byte_serialize(value.as_bytes()).collect()
}

/// A group given directly by its graph descriptor (`vssgp.`, `aadgp.`, `svc.`).
pub open spec fn is_group_descriptor(group: Seq<char>) -> bool {
    text::has_prefix(group, "vssgp."@) || text::has_prefix(group, "aadgp."@) || text::has_prefix(
        group,
        "svc."@,
    )
}

/// The group that a descriptor names on its own, without any lookup.
pub fn group_from_descriptor(group: &str) -> (r: Option<GraphGroup>)
    ensures
        is_group_descriptor(group@) ==> (r matches Some(g) && g.descriptor@ == group@ && g.display_name@
            == group@ && g.principal_name@ == Seq::<char>::empty()),
        !is_group_descriptor(group@) ==> r is None,
{
    if text::text_starts_with(group, "vssgp.") || text::text_starts_with(group, "aadgp.")
        || text::text_starts_with(group, "svc.") {
        Some(GraphGroup {
            descriptor: group.to_owned(),
            display_name: group.to_owned(),
            principal_name: String::new(),
        })
    } else {
        None
    }
}

/// The request for a project by name or id.
pub fn project_request(project_name_or_id: &str) -> (r: ApiRequest)
    ensures
        r.describes(
            HttpMethod::Get,
            AdoService::Core,
            "_apis/projects/"@ + form_encoded(vstd::utf8::encode_utf8(project_name_or_id@)),
            seq![("api-version"@, CORE_API_VERSION@)],
        ),
{
    let mut path = "_apis/projects/".to_owned();
    path.append(url_encoded(project_name_or_id).as_str());
    let mut query: Vec<(String, String)> = Vec::new();
    query.push(pair("api-version", CORE_API_VERSION));
    let r = ApiRequest { method: HttpMethod::Get, service: AdoService::Core, path, query };
    assert(crate::request::query_text(r.query@) =~= seq![("api-version"@, CORE_API_VERSION@)]);
    r
}

/// A 404 on the project lookup is `ProjectNotFound`; other errors stay.
pub fn project_lookup_error(error: AdoctlError, project_name_or_id: &str) -> (r: AdoctlError)
    ensures
        match error {
            AdoctlError::Api { status, .. } => if status == 404 {
                r matches AdoctlError::ProjectNotFound(p) && p@ == project_name_or_id@
            } else {
                r == error
            },
            _ => r == error,
        },
{
    map_not_found(error, AdoctlError::ProjectNotFound(project_name_or_id.to_owned()))
}

/// The request for a project's graph descriptor.
pub fn project_descriptor_request(project_id: &str) -> (r: ApiRequest)
    ensures
        r.describes(
            HttpMethod::Get,
            AdoService::Graph,
            "_apis/graph/descriptors/"@ + form_encoded(vstd::utf8::encode_utf8(project_id@)),
            seq![("api-version"@, GRAPH_API_VERSION@)],
        ),
{
    let mut path = "_apis/graph/descriptors/".to_owned();
    path.append(url_encoded(project_id).as_str());
    let mut query: Vec<(String, String)> = Vec::new();
    query.push(pair("api-version", GRAPH_API_VERSION));
    let r = ApiRequest { method: HttpMethod::Get, service: AdoService::Graph, path, query };
    assert(crate::request::query_text(r.query@) =~= seq![("api-version"@, GRAPH_API_VERSION@)]);
    r
}

/// The request for the groups of a scope.
pub fn project_groups_request(scope_descriptor: &str) -> (r: ApiRequest)
    ensures
        r.describes(
            HttpMethod::Get,
            AdoService::Graph,
            "_apis/graph/groups"@,
            seq![("scopeDescriptor"@, scope_descriptor@), ("api-version"@, GRAPH_API_VERSION@)],
        ),
{
    let mut query: Vec<(String, String)> = Vec::new();
    query.push(pair("scopeDescriptor", scope_descriptor));
    query.push(pair("api-version", GRAPH_API_VERSION));
    let r = ApiRequest {
        method: HttpMethod::Get,
        service: AdoService::Graph,
        path: "_apis/graph/groups".to_owned(),
        query,
    };
    assert(crate::request::query_text(r.query@) =~= seq![
        ("scopeDescriptor"@, scope_descriptor@),
        ("api-version"@, GRAPH_API_VERSION@),
    ]);
    r
}

/// Whether a group is named `name`, by display or principal name, ignoring ASCII case.
pub open spec fn group_named(g: GraphGroup, name: Seq<char>) -> bool {
    text::same_ignoring_ascii_case(g.display_name@, name) || text::same_ignoring_ascii_case(
        g.principal_name@,
        name,
    )
}

/// The first group named `name`, or `GroupNotFound`.
pub fn find_project_group(groups: Vec<GraphGroup>, name: &str) -> (r: Result<GraphGroup, AdoctlError>)
    ensures
        match r {
            Ok(g) => exists|i: int|
                0 <= i < groups@.len() && groups@[i] == g && group_named(g, name@) && forall|j: int|
                    0 <= j < i ==> !group_named(#[trigger] groups@[j], name@),
            Err(e) => (e matches AdoctlError::GroupNotFound(n) && n@ == name@) && forall|j: int|
                0 <= j < groups@.len() ==> !group_named(#[trigger] groups@[j], name@),
        },
{
    let mut i: usize = 0;
    while i < groups.len()
        invariant
            i <= groups@.len(),
            forall|j: int| 0 <= j < i ==> !group_named(#[trigger] groups@[j], name@),
        decreases groups@.len() - i,
    {
        if text::same_text_ignoring_ascii_case(groups[i].display_name.as_str(), name)
            || text::same_text_ignoring_ascii_case(groups[i].principal_name.as_str(), name) {
            let ghost all = groups@;
            let mut rest = groups;
            let g = rest.remove(i);
            assert(all[i as int] == g);
            return Ok(g);
        }
        i += 1;
    }
    Err(AdoctlError::GroupNotFound(name.to_owned()))
}

/// The user's graph descriptor, or `UserNotFound` for the identifier.
pub fn user_descriptor_for(user: &UserEntitlement, identifier: &UserIdentifier) -> (r: Result<String, AdoctlError>)
    ensures
        match r {
            Ok(d) => crate::users::is_filled(user.user.descriptor@) && d@ == user.user.descriptor@,
            Err(e) => !crate::users::is_filled(user.user.descriptor@) && (e matches AdoctlError::UserNotFound(l)
                && l@ == identifier.value_text()),
        },
{
    match user.descriptor() {
        Some(d) => Ok(d.to_owned()),
        None => Err(AdoctlError::UserNotFound(identifier.label().to_owned())),
    }
}

/// The request that adds (`Put`) or removes (`Delete`) a membership of a user
/// in a group.
pub fn membership_request(add: bool, user_descriptor: &str, group_descriptor: &str) -> (r: ApiRequest)
    ensures
        r.describes(
            if add {
                HttpMethod::Put
            } else {
                HttpMethod::Delete
            },
            AdoService::Graph,
            "_apis/graph/memberships/"@ + form_encoded(vstd::utf8::encode_utf8(user_descriptor@)) + "/"@
                + form_encoded(vstd::utf8::encode_utf8(group_descriptor@)),
            seq![("api-version"@, GRAPH_API_VERSION@)],
        ),
{
    let mut path = "_apis/graph/memberships/".to_owned();
    path.append(url_encoded(user_descriptor).as_str());
    path.append("/");
    path.append(url_encoded(group_descriptor).as_str());
    let mut query: Vec<(String, String)> = Vec::new();
    query.push(pair("api-version", GRAPH_API_VERSION));
    let r = ApiRequest {
        method: if add { HttpMethod::Put } else { HttpMethod::Delete },
        service: AdoService::Graph,
        path,
        query,
    };
    assert(crate::request::query_text(r.query@) =~= seq![("api-version"@, GRAPH_API_VERSION@)]);
    r
}

} // verus!
