//! Users of an organization: their entitlements, listing page by page,
//! filtering, lookup by UPN and the change of access level.

use vstd::prelude::*;
use crate::access_level::AccessLevel;
use crate::collect::{keep_matching, Selector};
use crate::config::AdoService;
use crate::error::AdoctlError;
use crate::request::{pair, ApiRequest, HttpMethod};
use crate::text;

verus! {

pub const USER_ENTITLEMENTS_API_VERSION: &'static str = "7.1-preview.4";

pub const USER_ENTITLEMENTS_PAGE_SIZE: usize = 100;

/// One page of the user entitlement list.
#[derive(Debug, Clone, Default)]
pub struct UserEntitlementList {
    pub members: Vec<UserEntitlement>,
}

/// A user with their access level and project entitlements.
#[derive(Debug, Clone, Default)]
pub struct UserEntitlement {
    pub id: String,
    pub user: AdoUser,
    pub access_level: AccessLevelInfo,
    pub project_entitlements: Vec<ProjectEntitlement>,
}

/// The identity of a user.
#[derive(Debug, Clone, Default)]
pub struct AdoUser {
    pub principal_name: String,
    pub mail_address: String,
    pub mail: String,
    pub display_name: String,
    pub descriptor: String,
    pub origin_id: String,
}

/// A user's license.
#[derive(Debug, Clone, Default)]
pub struct AccessLevelInfo {
    pub account_license_type: String,
    pub license_display_name: String,
    pub status: String,
}

/// A project that a user can access, and through which group.
#[derive(Debug, Clone, Default)]
pub struct ProjectEntitlement {
    pub project_ref: ProjectRef,
    pub group: ProjectGroup,
}

/// A project's id and name.
#[derive(Debug, Clone, Default)]
pub struct ProjectRef {
    pub id: String,
    pub name: String,
}

/// A project group's kind and name.
#[derive(Debug, Clone, Default)]
pub struct ProjectGroup {
    pub group_type: String,
    pub display_name: String,
}

/// Whether `s` holds something besides white space.
pub open spec fn is_filled(s: Seq<char>) -> bool {
    text::trim(s).len() > 0
}

impl UserEntitlement {
    /// The first filled of principal name, mail address and mail; empty if none is.
    pub open spec fn upn_text(&self) -> Seq<char> {
        if is_filled(self.user.principal_name@) {
            self.user.principal_name@
        } else if is_filled(self.user.mail_address@) {
            self.user.mail_address@
        } else if is_filled(self.user.mail@) {
            self.user.mail@
        } else {
            Seq::empty()
        }
    }

    /// The display name, or the UPN when the display name is blank.
    pub open spec fn display_text(&self) -> Seq<char> {
        if is_filled(self.user.display_name@) {
            self.user.display_name@
        } else {
            self.upn_text()
        }
    }

    pub fn upn(&self) -> (r: String)
        ensures
            r@ == self.upn_text(),
    {
        if filled(self.user.principal_name.as_str()) {
            self.user.principal_name.clone()
        } else if filled(self.user.mail_address.as_str()) {
            self.user.mail_address.clone()
        } else if filled(self.user.mail.as_str()) {
            self.user.mail.clone()
        } else {
            String::new()
        }
    }

    pub fn display_name(&self) -> (r: String)
        ensures
            r@ == self.display_text(),
    {
        if filled(self.user.display_name.as_str()) {
            self.user.display_name.clone()
        } else {
            self.upn()
        }
    }

    /// The graph descriptor, unless it is blank.
    pub fn descriptor(&self) -> (r: Option<&str>)
        ensures
            match r {
                Some(d) => is_filled(self.user.descriptor@) && d@ == self.user.descriptor@,
                None => !is_filled(self.user.descriptor@),
            },
    {
        if filled(self.user.descriptor.as_str()) {
            Some(self.user.descriptor.as_str())
        } else {
            None
        }
    }
}

/// Whether `s` holds something besides white space.
pub fn filled(s: &str) -> (r: bool)
    ensures
        r == is_filled(s@),
{
    let v = text::chars_of(s);
    let (a, b) = text::trim_bounds(&v);
    a < b
}

/// The request for the page of users that starts after `skip` users.
pub open spec fn users_page_request_is(r: ApiRequest, skip: usize) -> bool {
    r.describes(
        HttpMethod::Get,
        AdoService::Entitlements,
        "_apis/userentitlements"@,
        seq![
            ("api-version"@, USER_ENTITLEMENTS_API_VERSION@),
            ("top"@, "100"@),
            ("skip"@, text::decimal(skip as nat)),
        ],
    )
}

/// Reading the user list page by page (`top`/`skip` paging): every page is
/// kept, and a page shorter than the page size is the last.
#[derive(Debug)]
pub struct UserListing {
    skip: usize,
    members: Vec<UserEntitlement>,
    done: bool,
}

impl UserListing {
    /// The users read so far, in the order of the pages.
    pub closed spec fn members_read(&self) -> Seq<UserEntitlement> {
        self.members@
    }

    /// How many users the next page skips.
    pub closed spec fn next_skip(&self) -> usize {
        self.skip
    }

    /// Whether the last page was read.
    pub closed spec fn finished(&self) -> bool {
        self.done
    }

    /// The paging bookkeeping holds.
    pub closed spec fn well_formed(&self) -> bool {
        self.members@.len() >= self.skip
    }

    pub fn new() -> (r: UserListing)
        ensures
            r.well_formed(),
            r.members_read() == Seq::<UserEntitlement>::empty(),
            r.next_skip() == 0,
            !r.finished(),
    {
        UserListing { skip: 0, members: Vec::new(), done: false }
    }

    /// The request for the next page, or `None` once the last page was read.
    pub fn next_request(&self) -> (r: Option<ApiRequest>)
        ensures
            self.finished() ==> r is None,
            !self.finished() ==> (r matches Some(req) && users_page_request_is(req, self.next_skip())),
    {
        if self.done {
            return None;
        }
        let mut query: Vec<(String, String)> = Vec::new();
        query.push(pair("api-version", USER_ENTITLEMENTS_API_VERSION));
        query.push(pair("top", "100"));
        let skip_text = text::decimal_text(self.skip as u64);
        query.push(pair("skip", skip_text.as_str()));
        let req = ApiRequest {
            method: HttpMethod::Get,
            service: AdoService::Entitlements,
            path: "_apis/userentitlements".to_owned(),
            query,
        };
        proof {
            reveal_strlit("100");
            assert(text::decimal(100) =~= "100"@) by {
                assert(text::decimal(1) == seq!['1']);
                assert(text::decimal(10) == seq!['1', '0']);
            }
            assert(crate::request::query_text(req.query@) =~= seq![
                ("api-version"@, USER_ENTITLEMENTS_API_VERSION@),
                ("top"@, "100"@),
                ("skip"@, text::decimal(self.skip as nat)),
            ]);
        }
        Some(req)
    }

    /// Takes in the page that `next_request` asked for.
    pub fn receive_page(&mut self, page: Vec<UserEntitlement>)
        requires
            old(self).well_formed(),
            !old(self).finished(),
        ensures
            final(self).well_formed(),
            final(self).members_read() == old(self).members_read() + page@,
            final(self).finished() == (page@.len() < USER_ENTITLEMENTS_PAGE_SIZE),
            !final(self).finished() ==> final(self).next_skip() == old(self).next_skip()
                + USER_ENTITLEMENTS_PAGE_SIZE,
    {
        let page_len = page.len();
        let mut page = page;
        self.members.append(&mut page);
        let total = self.members.len();
        assert(total == old(self).members@.len() + page_len);
        if page_len < USER_ENTITLEMENTS_PAGE_SIZE {
            self.done = true;
        } else {
            self.skip = self.skip + USER_ENTITLEMENTS_PAGE_SIZE;
        }
    }

    /// All users read.
    pub fn into_members(self) -> (r: Vec<UserEntitlement>)
        ensures
            r@ == self.members_read(),
    {
        self.members
    }
}

/// The text of an optional string.
pub open spec fn optional_text(value: Option<&str>) -> Option<Seq<char>> {
    match value {
        Some(s) => Some(s@),
        None => None,
    }
}

/// The search key: trimmed and ASCII-lower-cased.
pub open spec fn user_search_key(search: Option<Seq<char>>) -> Option<Seq<char>> {
    match search {
        Some(s) => Some(text::ascii_lower(text::trim(s))),
        None => None,
    }
}

/// Whether `field`, ASCII-lower-cased, contains `key`.
pub open spec fn field_has(field: Seq<char>, key: Seq<char>) -> bool {
    text::has_infix(text::ascii_lower(field), key)
}

/// Whether a user passes the access level and search filters: the license type
/// denotes `level`, and display name, principal name, mail address or mail
/// contains the search key, ignoring ASCII case.
pub open spec fn user_selected(user: UserEntitlement, level: Option<AccessLevel>, key: Option<Seq<char>>) -> bool {
    &&& match level {
        Some(l) => l.matches_text(user.access_level.account_license_type@),
        None => true,
    }
    &&& match key {
        Some(k) => field_has(user.user.display_name@, k) || field_has(user.user.principal_name@, k)
            || field_has(user.user.mail_address@, k) || field_has(user.user.mail@, k),
        None => true,
    }
}

fn field_contains(field: &String, key: &Vec<char>) -> (r: bool)
    ensures
        r == field_has(field@, key@),
{
    let f = text::lower_chars(&text::chars_of(field.as_str()));
    text::chars_contain(&f, key)
}

fn user_passes(user: &UserEntitlement, level: Option<AccessLevel>, key: &Option<Vec<char>>) -> (r: bool)
    ensures
        r == user_selected(
            *user,
            level,
            match key {
                Some(k) => Some(k@),
                None => None,
            },
        ),
{
    let level_ok = match level {
        Some(l) => l.matches_api_value(user.access_level.account_license_type.as_str()),
        None => true,
    };
    if !level_ok {
        return false;
    }
    match key {
        Some(k) => field_contains(&user.user.display_name, k) || field_contains(&user.user.principal_name, k)
            || field_contains(&user.user.mail_address, k) || field_contains(&user.user.mail, k),
        None => true,
    }
}

/// The access level and search filters.
pub struct UserFilter {
    pub level: Option<AccessLevel>,
    pub key: Option<Vec<char>>,
}

impl Selector<UserEntitlement> for UserFilter {
    open spec fn accepts(&self, u: UserEntitlement) -> bool {
        user_selected(
            u,
            self.level,
            match self.key {
                Some(k) => Some(k@),
                None => None,
            },
        )
    }

    fn test(&self, u: &UserEntitlement) -> (b: bool) {
        user_passes(u, self.level, &self.key)
    }
}

/// Selects the users whose principal name, mail address or mail is a UPN.
pub struct UpnFilter {
    pub upn: String,
}

impl Selector<UserEntitlement> for UpnFilter {
    open spec fn accepts(&self, u: UserEntitlement) -> bool {
        has_upn(u, self.upn@)
    }

    fn test(&self, u: &UserEntitlement) -> (b: bool) {
        text::same_text_ignoring_ascii_case(u.user.principal_name.as_str(), self.upn.as_str())
            || text::same_text_ignoring_ascii_case(u.user.mail_address.as_str(), self.upn.as_str())
            || text::same_text_ignoring_ascii_case(u.user.mail.as_str(), self.upn.as_str())
    }
}

/// The users, in order, that pass the access level and search filters.
pub fn select_users(users: Vec<UserEntitlement>, access_level: Option<AccessLevel>, search: Option<&str>) -> (r:
    Vec<UserEntitlement>)
    ensures
        r@ == users@.filter(|u: UserEntitlement| user_selected(u, access_level, user_search_key(optional_text(search)))),
{
    let key: Option<Vec<char>> = match search {
        Some(s) => {
            let v = text::chars_of(s);
            let (a, b) = text::trim_bounds(&v);
            let t = text::string_of_range(&v, a, b);
            Some(text::lower_chars(&text::chars_of(t.as_str())))
        },
        None => None,
    };
    let ghost spec_key = user_search_key(optional_text(search));
    assert(spec_key == match key {
        Some(k) => Some(k@),
        None => None::<Seq<char>>,
    });
    let selector = UserFilter { level: access_level, key };
    let r = keep_matching(users, &selector);
    proof {
        assert((|u: UserEntitlement| selector.accepts(u)) =~= (|u: UserEntitlement|
            user_selected(u, access_level, user_search_key(optional_text(search)))));
    }
    r
}

/// Whether one of the user's addresses is `upn`, ignoring ASCII case.
pub open spec fn has_upn(user: UserEntitlement, upn: Seq<char>) -> bool {
    ||| text::same_ignoring_ascii_case(user.user.principal_name@, upn)
    ||| text::same_ignoring_ascii_case(user.user.mail_address@, upn)
    ||| text::same_ignoring_ascii_case(user.user.mail@, upn)
}

/// The users that a UPN lookup considers: those the search for `upn` finds
/// whose principal name, mail address or mail is `upn`.
pub open spec fn upn_candidates(users: Seq<UserEntitlement>, upn: Seq<char>) -> Seq<UserEntitlement> {
    users.filter(|u: UserEntitlement| user_selected(u, None, user_search_key(Some(upn)))).filter(
        |u: UserEntitlement| has_upn(u, upn),
    )
}

/// The user search looks at all four names: a user that passes the access
/// level filter is selected exactly when its display name, principal name,
/// mail address or mail, ASCII-lower-cased, contains the trimmed search text,
/// ASCII-lower-cased.
pub proof fn lemma_user_search_fields(user: UserEntitlement, level: Option<AccessLevel>, search: Seq<char>)
    requires
        match level {
            Some(l) => l.matches_text(user.access_level.account_license_type@),
            None => true,
        },
    ensures
        user_selected(user, level, user_search_key(Some(search))) <==> (
            text::has_infix(text::ascii_lower(user.user.display_name@), text::ascii_lower(text::trim(search)))
            || text::has_infix(text::ascii_lower(user.user.principal_name@), text::ascii_lower(text::trim(search)))
            || text::has_infix(text::ascii_lower(user.user.mail_address@), text::ascii_lower(text::trim(search)))
            || text::has_infix(text::ascii_lower(user.user.mail@), text::ascii_lower(text::trim(search)))
        ),
{
}

/// A lookup by UPN finds a user by any of its three addresses: when exactly
/// one user has a principal name, mail address or mail equal to `upn`
/// (ignoring ASCII case), that user is the one candidate, and so the one that
/// `find_user_by_upn` returns.
pub proof fn lemma_upn_lookup_by_any_address(users: Seq<UserEntitlement>, upn: Seq<char>, i: int)
    requires
        0 <= i < users.len(),
        text::same_ignoring_ascii_case(users[i].user.principal_name@, upn)
            || text::same_ignoring_ascii_case(users[i].user.mail_address@, upn)
            || text::same_ignoring_ascii_case(users[i].user.mail@, upn),
        forall|j: int|
            0 <= j < users.len() && j != i ==> !text::same_ignoring_ascii_case(
                #[trigger] users[j].user.principal_name@,
                upn,
            ) && !text::same_ignoring_ascii_case(users[j].user.mail_address@, upn)
                && !text::same_ignoring_ascii_case(users[j].user.mail@, upn),
    ensures
        upn_candidates(users, upn) == seq![users[i]],
{
    let f = |u: UserEntitlement| user_selected(u, None, user_search_key(Some(upn)));
    let g = |u: UserEntitlement| has_upn(u, upn);
    let both = |u: UserEntitlement| f(u) && g(u);
    crate::collect::lemma_filter_filter(users, f, g);
    let u = users[i];
    if text::same_ignoring_ascii_case(u.user.principal_name@, upn) {
        text::lemma_trim_lower_is_infix(upn, u.user.principal_name@);
    } else if text::same_ignoring_ascii_case(u.user.mail_address@, upn) {
        text::lemma_trim_lower_is_infix(upn, u.user.mail_address@);
    } else {
        text::lemma_trim_lower_is_infix(upn, u.user.mail@);
    }
    assert(both(users[i]));
    assert forall|j: int| 0 <= j < users.len() && j != i implies !both(#[trigger] users[j]) by {
        assert(!g(users[j]));
    }
    crate::collect::lemma_filter_only(users, both, i);
    assert(upn_candidates(users, upn) == users.filter(f).filter(g));
}

/// A user's UPN is its first non-blank address, in the order principal name,
/// mail address, mail; its display name is its own when not blank, else its UPN.
pub proof fn lemma_user_names(user: UserEntitlement)
    ensures
        text::trim(user.user.principal_name@).len() > 0 ==> user.upn_text() == user.user.principal_name@,
        text::trim(user.user.principal_name@).len() == 0 && text::trim(user.user.mail_address@).len() > 0
            ==> user.upn_text() == user.user.mail_address@,
        text::trim(user.user.principal_name@).len() == 0 && text::trim(user.user.mail_address@).len() == 0
            && text::trim(user.user.mail@).len() > 0 ==> user.upn_text() == user.user.mail@,
        text::trim(user.user.display_name@).len() > 0 ==> user.display_text() == user.user.display_name@,
        text::trim(user.user.display_name@).len() == 0 ==> user.display_text() == user.upn_text(),
{
}

/// Looks a user up by UPN among `users`: the one exact match, `UserNotFound`
/// when there is none, `AmbiguousUser` when there are several.
pub fn find_user_by_upn(users: Vec<UserEntitlement>, upn: &str) -> (r: Result<UserEntitlement, AdoctlError>)
    ensures
        upn_candidates(users@, upn@).len() == 0 ==> (r matches Err(AdoctlError::UserNotFound(v))
            && v@ == upn@),
        upn_candidates(users@, upn@).len() == 1 ==> r == Ok::<UserEntitlement, AdoctlError>(
            upn_candidates(users@, upn@)[0],
        ),
        upn_candidates(users@, upn@).len() > 1 ==> (r matches Err(AdoctlError::AmbiguousUser(v))
            && v@ == upn@),
{
    let found = select_users(users, None, Some(upn));
    proof {
        let f1 = |u: UserEntitlement| user_selected(u, None, user_search_key(optional_text(Some(upn))));
        let f2 = |u: UserEntitlement| user_selected(u, None, user_search_key(Some(upn@)));
        assert(f1 =~= f2);
    }
    let selector = UpnFilter { upn: upn.to_owned() };
    let mut exact = keep_matching(found, &selector);
    proof {
        assert((|u: UserEntitlement| selector.accepts(u)) =~= (|u: UserEntitlement| has_upn(u, upn@)));
        assert(exact@ == upn_candidates(users@, upn@));
    }
    if exact.len() == 0 {
        Err(AdoctlError::UserNotFound(upn.to_owned()))
    } else if exact.len() == 1 {
        Ok(exact.remove(0))
    } else {
        Err(AdoctlError::AmbiguousUser(upn.to_owned()))
    }
}

/// The request for one user entitlement by id.
pub fn user_entitlement_request(id: &str) -> (r: ApiRequest)
    ensures
        r.describes(
            HttpMethod::Get,
            AdoService::Entitlements,
            "_apis/userentitlements/"@ + id@,
            seq![("api-version"@, USER_ENTITLEMENTS_API_VERSION@)],
        ),
{
    let mut path = "_apis/userentitlements/".to_owned();
    path.append(id);
    let mut query: Vec<(String, String)> = Vec::new();
    query.push(pair("api-version", USER_ENTITLEMENTS_API_VERSION));
    let r = ApiRequest { method: HttpMethod::Get, service: AdoService::Entitlements, path, query };
    assert(crate::request::query_text(r.query@) =~= seq![("api-version"@, USER_ENTITLEMENTS_API_VERSION@)]);
    r
}

/// The license part of the access level patch.
#[derive(Debug, Clone, PartialEq, Eq)]
pub struct AccessLevelPatch {
    pub account_license_type: String,
    pub licensing_source: String,
}

/// One JSON Patch operation on a user entitlement.
#[derive(Debug, Clone, PartialEq, Eq)]
pub struct JsonPatchOperation {
    pub op: String,
    pub path: String,
    pub value: AccessLevelPatch,
}

/// The JSON Patch that sets a user's access level: replace `/accessLevel` with
/// the level's license type, licensed through the account.
pub fn access_level_patch(level: AccessLevel) -> (r: Vec<JsonPatchOperation>)
    ensures
        r@.len() == 1,
        r@[0].op@ == "replace"@,
        r@[0].path@ == "/accessLevel"@,
        r@[0].value.account_license_type@ == level.api_text(),
        r@[0].value.licensing_source@ == "account"@,
{
    let mut patch: Vec<JsonPatchOperation> = Vec::new();
    patch.push(JsonPatchOperation {
        op: "replace".to_owned(),
        path: "/accessLevel".to_owned(),
        value: AccessLevelPatch {
            account_license_type: level.api_account_license_type().to_owned(),
            licensing_source: "account".to_owned(),
        },
    });
    patch
}

/// The request that patches the entitlement of the user with `id`.
pub fn set_access_level_request(id: &str) -> (r: ApiRequest)
    ensures
        r.describes(
            HttpMethod::Patch,
            AdoService::Entitlements,
            "_apis/userentitlements/"@ + id@,
            seq![("api-version"@, USER_ENTITLEMENTS_API_VERSION@)],
        ),
{
    let mut r = user_entitlement_request(id);
    r.method = HttpMethod::Patch;
    r
}

/// The content type of the access level patch.
pub const JSON_PATCH_CONTENT_TYPE: &'static str = "application/json-patch+json";

} // verus!
