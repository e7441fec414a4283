//! Agent pools, agents and job requests: their states, the requests that read
//! them, resolving a pool by name or id, and job paging by continuation token.

use vstd::prelude::*;
use crate::collect::{keep_matching, Selector};
use crate::config::AdoService;
use crate::error::{map_not_found, AdoctlError};
use crate::pool_type::PoolTypeFilter;
use crate::projects::{continuation_token_from_header, continuation_token_of};
use crate::request::{pair, ApiRequest, HttpMethod};
use crate::text;

verus! {

pub const DISTRIBUTED_TASK_API_VERSION: &'static str = "7.1";

pub const JOB_REQUESTS_API_VERSION: &'static str = "7.1-preview.1";

/// An agent pool.
#[derive(Debug, Clone, Default)]
pub struct AgentPool {
    pub id: u32,
    pub name: String,
    pub pool_type: String,
    pub is_hosted: bool,
    pub size: u32,
    pub target_size: Option<u32>,
    pub auto_size: bool,
    pub auto_provision: bool,
}

/// An agent of a pool.
#[derive(Debug, Clone, Default)]
pub struct Agent {
    pub id: u32,
    pub name: String,
    pub version: String,
    pub os_description: String,
    pub enabled: bool,
    pub status: String,
    pub status_changed_on: String,
    pub provisioning_state: String,
    pub assigned_request: Option<JobRequest>,
}

/// The agent a job request is reserved for.
#[derive(Debug, Clone, Default)]
pub struct AgentReference {
    pub id: u32,
    pub name: String,
    pub enabled: bool,
    pub status: String,
}

/// The pipeline definition or run that owns a job request.
#[derive(Debug, Clone, Default)]
pub struct OrchestrationOwner {
    pub id: u32,
    pub name: String,
}

/// A job request of a pool.
#[derive(Debug, Clone, Default)]
pub struct JobRequest {
    pub request_id: u64,
    pub pool_id: u32,
    pub queue_id: u32,
    pub job_id: Option<String>,
    pub job_name: Option<String>,
    pub plan_id: Option<String>,
    pub plan_type: Option<String>,
    pub queue_time: Option<String>,
    pub assign_time: Option<String>,
    pub receive_time: Option<String>,
    pub finish_time: Option<String>,
    pub result: Option<String>,
    pub status_message: Option<String>,
    pub reserved_agent: Option<AgentReference>,
    pub definition: Option<OrchestrationOwner>,
    pub owner: Option<OrchestrationOwner>,
}

/// Where a job request stands.
#[derive(Debug, Clone, Copy, PartialEq, Eq, Structural)]
pub enum JobRequestState {
    Queued,
    Running,
    Completed,
}

/// A present, non-empty value.
pub open spec fn is_set(value: Option<String>) -> bool {
    value is Some && value->0@.len() > 0
}

fn set(value: &Option<String>) -> (r: bool)
    ensures
        r == is_set(*value),
{
    match value {
        Some(v) => !v.as_str().is_empty(),
        None => false,
    }
}

impl JobRequest {
    /// Completed once it has a finish time or a result; running once it was
    /// received, assigned or reserved an agent; queued before.
    pub open spec fn state_of(&self) -> JobRequestState {
        if is_set(self.finish_time) || is_set(self.result) {
            JobRequestState::Completed
        } else if is_set(self.receive_time) || is_set(self.assign_time) || self.reserved_agent is Some {
            JobRequestState::Running
        } else {
            JobRequestState::Queued
        }
    }

    pub fn state(&self) -> (r: JobRequestState)
        ensures
            r == self.state_of(),
    {
        if set(&self.finish_time) || set(&self.result) {
            JobRequestState::Completed
        } else if set(&self.receive_time) || set(&self.assign_time) || self.reserved_agent.is_some() {
            JobRequestState::Running
        } else {
            JobRequestState::Queued
        }
    }
}

/// The state of a job request follows its timestamps: a non-empty finish time
/// or result makes it completed, whatever else it holds; without those, a
/// non-empty receive or assign time or a reserved agent makes it running; a
/// request with none of these is queued.
pub proof fn lemma_job_state_follows_timestamps(job: JobRequest)
    ensures
        (job.finish_time matches Some(f) && f@.len() > 0) ==> job.state_of() == JobRequestState::Completed,
        (job.result matches Some(x) && x@.len() > 0) ==> job.state_of() == JobRequestState::Completed,
        job.state_of() == JobRequestState::Completed ==> (job.finish_time matches Some(f) && f@.len() > 0)
            || (job.result matches Some(x) && x@.len() > 0),
        job.state_of() == JobRequestState::Running <==> (
            !(job.finish_time matches Some(f) && f@.len() > 0)
            && !(job.result matches Some(x) && x@.len() > 0)
            && ((job.receive_time matches Some(t) && t@.len() > 0)
                || (job.assign_time matches Some(t) && t@.len() > 0)
                || job.reserved_agent is Some)
        ),
{
}

/// A job request list, wrapped in a collection object or given directly.
#[derive(Debug, Clone)]
pub enum JobRequestListResponse {
    Wrapped { value: Vec<JobRequest> },
    Direct(Vec<JobRequest>),
}

impl JobRequestListResponse {
    pub fn into_vec(self) -> (r: Vec<JobRequest>)
        ensures
            r == match self {
                JobRequestListResponse::Wrapped { value } => value,
                JobRequestListResponse::Direct(value) => value,
            },
    {
        match self {
            JobRequestListResponse::Wrapped { value } => value,
            JobRequestListResponse::Direct(value) => value,
        }
    }
}

/// The query of the pool list.
pub open spec fn pools_query(pool_type: Option<PoolTypeFilter>, pool_name: Option<Seq<char>>) -> Seq<(Seq<char>, Seq<char>)> {
    let base = seq![("api-version"@, DISTRIBUTED_TASK_API_VERSION@)];
    let typed = match pool_type {
        Some(t) => base.push(("poolType"@, t.api_text())),
        None => base,
    };
    match pool_name {
        Some(n) => typed.push(("poolName"@, n)),
        None => typed,
    }
}

/// The request for the pools, of one type and of one name if given.
pub fn agent_pools_request(pool_type: Option<PoolTypeFilter>, pool_name: Option<&str>) -> (r: ApiRequest)
    ensures
        r.describes(
            HttpMethod::Get,
            AdoService::Core,
            "_apis/distributedtask/pools"@,
            pools_query(pool_type, crate::users::optional_text(pool_name)),
        ),
{
    let mut query: Vec<(String, String)> = Vec::new();
    query.push(pair("api-version", DISTRIBUTED_TASK_API_VERSION));
    if let Some(t) = pool_type {
        query.push(pair("poolType", t.api_value()));
    }
    if let Some(n) = pool_name {
        query.push(pair("poolName", n));
    }
    let r = ApiRequest {
        method: HttpMethod::Get,
        service: AdoService::Core,
        path: "_apis/distributedtask/pools".to_owned(),
        query,
    };
    assert(crate::request::query_text(r.query@) =~= pools_query(pool_type, crate::users::optional_text(pool_name)));
    r
}

/// The request for a pool's agents with their assigned requests.
pub fn agents_request(pool_id: u32) -> (r: ApiRequest)
    ensures
        r.describes(
            HttpMethod::Get,
            AdoService::Core,
            "_apis/distributedtask/pools/"@ + text::decimal(pool_id as nat) + "/agents"@,
            seq![("includeAssignedRequest"@, "true"@), ("api-version"@, DISTRIBUTED_TASK_API_VERSION@)],
        ),
{
    let mut path = "_apis/distributedtask/pools/".to_owned();
    path.append(text::decimal_text(pool_id as u64).as_str());
    path.append("/agents");
    let mut query: Vec<(String, String)> = Vec::new();
    query.push(pair("includeAssignedRequest", "true"));
    query.push(pair("api-version", DISTRIBUTED_TASK_API_VERSION));
    let r = ApiRequest { method: HttpMethod::Get, service: AdoService::Core, path, query };
    assert(crate::request::query_text(r.query@) =~= seq![
        ("includeAssignedRequest"@, "true"@),
        ("api-version"@, DISTRIBUTED_TASK_API_VERSION@),
    ]);
    r
}

/// The query of a job request page.
pub open spec fn jobs_query(token: Option<Seq<char>>) -> Seq<(Seq<char>, Seq<char>)> {
    let base = seq![("$top"@, "100"@), ("api-version"@, JOB_REQUESTS_API_VERSION@)];
    match token {
        Some(t) => base.push(("continuationToken"@, t)),
        None => base,
    }
}

/// The request for a page of a pool's job requests.
pub fn job_requests_request(pool_id: u32, token: Option<&str>) -> (r: ApiRequest)
    ensures
        r.describes(
            HttpMethod::Get,
            AdoService::Core,
            "_apis/distributedtask/pools/"@ + text::decimal(pool_id as nat) + "/jobrequests"@,
            jobs_query(crate::users::optional_text(token)),
        ),
{
    let mut path = "_apis/distributedtask/pools/".to_owned();
    path.append(text::decimal_text(pool_id as u64).as_str());
    path.append("/jobrequests");
    let mut query: Vec<(String, String)> = Vec::new();
    query.push(pair("$top", "100"));
    query.push(pair("api-version", JOB_REQUESTS_API_VERSION));
    if let Some(t) = token {
        query.push(pair("continuationToken", t));
    }
    let r = ApiRequest { method: HttpMethod::Get, service: AdoService::Core, path, query };
    assert(crate::request::query_text(r.query@) =~= jobs_query(crate::users::optional_text(token)));
    r
}

/// The value of a string of decimal digits.
pub open spec fn digits_value(s: Seq<char>) -> nat
    decreases s.len(),
{
    if s.len() == 0 {
        0
    } else {
        digits_value(s.drop_last()) * 10 + ((s.last() as u32) - 48) as nat
    }
}

/// Every character is an ASCII digit.
pub open spec fn all_digits(s: Seq<char>) -> bool {
    forall|i: int| 0 <= i < s.len() ==> '0' <= #[trigger] s[i] && s[i] <= '9'
}

/// `u32::from_str`: an optional `+`, then one or more digits, within range.
pub open spec fn parsed_u32(s: Seq<char>) -> Option<u32> {
    let body = if s.len() > 0 && s[0] == '+' {
        s.drop_first()
    } else {
        s
    };
    if body.len() > 0 && all_digits(body) && digits_value(body) <= u32::MAX {
        Some(digits_value(body) as u32)
    } else {
        None
    }
}

proof fn lemma_digits_value_grows(s: Seq<char>, k: int)
    requires
        0 <= k <= s.len(),
        all_digits(s),
    ensures
        digits_value(s.subrange(0, k)) <= digits_value(s),
    decreases s.len() - k,
{
    if k < s.len() {
        let t = s.drop_last();
        assert(all_digits(t)) by {
            assert forall|i: int| 0 <= i < t.len() implies '0' <= #[trigger] t[i] && t[i] <= '9' by {
                assert(t[i] == s[i]);
            }
        }
        lemma_digits_value_grows(t, k);
        assert(t.subrange(0, k) =~= s.subrange(0, k));
    } else {
        assert(s.subrange(0, k) =~= s);
    }
}

proof fn lemma_digit_char_value(k: nat)
    requires
        k < 10,
    ensures
        (text::digit_char(k) as u32) == k + 48,
{
}

proof fn lemma_decimal_digits(n: nat)
    ensures
        text::decimal(n).len() > 0,
        all_digits(text::decimal(n)),
        digits_value(text::decimal(n)) == n,
    decreases n,
{
    let d = text::decimal(n);
    lemma_digit_char_value(n % 10);
    if n < 10 {
        assert(d.drop_last() =~= Seq::<char>::empty());
        assert(d.last() == text::digit_char(n % 10));
        assert(digits_value(d) == digits_value(d.drop_last()) * 10 + ((d.last() as u32) - 48) as nat);
    } else {
        lemma_decimal_digits(n / 10);
        let p = text::decimal(n / 10);
        assert(d.drop_last() =~= p);
        assert(d.last() == text::digit_char(n % 10));
        assert(digits_value(d) == digits_value(p) * 10 + ((d.last() as u32) - 48) as nat);
        assert(n == (n / 10) * 10 + n % 10);
        assert forall|i: int| 0 <= i < d.len() implies '0' <= #[trigger] d[i] && d[i] <= '9' by {
            if i < p.len() {
                assert(d[i] == p[i]);
            }
        }
    }
}

/// A pool id written out in decimal, as the tables show it, reads back as the
/// same id.
pub proof fn lemma_pool_id_round_trip(id: u32)
    ensures
        text::trim(text::decimal(id as nat)) == text::decimal(id as nat),
        parsed_u32(text::trim(text::decimal(id as nat))) == Some(id),
{
    let d = text::decimal(id as nat);
    lemma_decimal_digits(id as nat);
    assert('0' <= d[0] && d[0] <= '9');
    assert('0' <= d.last() && d.last() <= '9');
    assert(text::trim_start(d) == d);
    assert(text::trim_end(d) == d);
}

/// Reads a pool id: the trimmed text as a `u32`.
pub fn pool_id_from_text(pool: &str) -> (r: Option<u32>)
    ensures
        r == parsed_u32(text::trim(pool@)),
{
    let v = text::chars_of(pool);
    let (a, b) = text::trim_bounds(&v);
    let ghost t = v@.subrange(a as int, b as int);
    let mut start = a;
    if start < b && v[start] == '+' {
        start += 1;
    }
    let ghost body = v@.subrange(start as int, b as int);
    assert(body == if t.len() > 0 && t[0] == '+' { t.drop_first() } else { t });
    assert(t == text::trim(pool@));
    if start == b {
        return None;
    }
    let mut value: u64 = 0;
    let mut i = start;
    while i < b
        invariant
            a <= start <= i <= b <= v.len(),
            body == v@.subrange(start as int, b as int),
            t == text::trim(pool@),
            body == (if t.len() > 0 && t[0] == '+' { t.drop_first() } else { t }),
            value == digits_value(v@.subrange(start as int, i as int)),
            value <= u32::MAX,
            all_digits(v@.subrange(start as int, i as int)),
        decreases b - i,
    {
        let c = v[i];
        if c < '0' || c > '9' {
            assert(body[i - start] == c);
            assert(!all_digits(body));
            assert(t == text::trim(pool@));
            return None;
        }
        let d = ((c as u32) - 48) as u64;
        let ghost prefix = v@.subrange(start as int, (i + 1) as int);
        assert(prefix.drop_last() =~= v@.subrange(start as int, i as int));
        value = value * 10 + d;
        i += 1;
        assert(all_digits(prefix)) by {
            assert forall|j: int| 0 <= j < prefix.len() implies '0' <= #[trigger] prefix[j] && prefix[j] <= '9' by {
                if j < prefix.len() - 1 {
                    assert(prefix[j] == v@.subrange(start as int, (i - 1) as int)[j]);
                }
            }
        }
        assert(value == digits_value(prefix));
        if value > 4294967295 {
            assert(t == text::trim(pool@));
            proof {
                if all_digits(body) {
                    lemma_digits_value_grows(body, (i - start) as int);
                    assert(body.subrange(0, (i - start) as int) =~= prefix);
                }
            }
            return None;
        }
    }
    Some(value as u32)
}

/// Whether a pool's name is `name`, ignoring ASCII case.
pub open spec fn pool_named(p: AgentPool, name: Seq<char>) -> bool {
    text::same_ignoring_ascii_case(p.name@, name)
}

/// A pool looked up by name is the one pool whose name equals it ignoring
/// ASCII case: when exactly `pools[i]` has that name, the lookup finds it.
pub proof fn lemma_pool_lookup_by_name(pools: Seq<AgentPool>, name: Seq<char>, i: int)
    requires
        0 <= i < pools.len(),
        text::same_ignoring_ascii_case(pools[i].name@, name),
        forall|j: int|
            0 <= j < pools.len() && j != i ==> !text::same_ignoring_ascii_case(#[trigger] pools[j].name@, name),
    ensures
        pools_named(pools, name) == seq![pools[i]],
{
    let f = |p: AgentPool| pool_named(p, name);
    assert forall|j: int| 0 <= j < pools.len() && j != i implies !f(#[trigger] pools[j]) by {}
    crate::collect::lemma_filter_only(pools, f, i);
}

/// Selects the pools named exactly (ignoring ASCII case) as given.
pub struct PoolNameFilter {
    pub name: String,
}

impl Selector<AgentPool> for PoolNameFilter {
    open spec fn accepts(&self, p: AgentPool) -> bool {
        pool_named(p, self.name@)
    }

    fn test(&self, p: &AgentPool) -> (b: bool) {
        text::same_text_ignoring_ascii_case(p.name.as_str(), self.name.as_str())
    }
}

/// The pools a name lookup matches.
pub open spec fn pools_named(pools: Seq<AgentPool>, name: Seq<char>) -> Seq<AgentPool> {
    pools.filter(|p: AgentPool| pool_named(p, name))
}

/// The id of the one pool among `pools` named `name` (ignoring ASCII case):
/// `PoolNotFound` when none is, `AmbiguousPool` when several are.
pub fn select_pool_id(pools: Vec<AgentPool>, name: &str) -> (r: Result<u32, AdoctlError>)
    ensures
        pools_named(pools@, name@).len() == 1 ==> r == Ok::<u32, AdoctlError>(
            pools_named(pools@, name@)[0].id,
        ),
        pools_named(pools@, name@).len() == 0 ==> (r matches Err(AdoctlError::PoolNotFound(n)) && n@
            == name@),
        pools_named(pools@, name@).len() > 1 ==> (r matches Err(AdoctlError::AmbiguousPool(n)) && n@
            == name@),
{
    let filter = PoolNameFilter { name: name.to_owned() };
    let matches = keep_matching(pools, &filter);
    proof {
        assert((|p: AgentPool| filter.accepts(p)) =~= (|p: AgentPool| pool_named(p, name@)));
    }
    if matches.len() == 1 {
        Ok(matches[0].id)
    } else if matches.len() == 0 {
        Err(AdoctlError::PoolNotFound(name.to_owned()))
    } else {
        Err(AdoctlError::AmbiguousPool(name.to_owned()))
    }
}

/// A 404 while reading a pool's agents or jobs means the pool does not exist.
pub fn pool_lookup_error(error: AdoctlError, pool: &str) -> (r: AdoctlError)
    ensures
        match error {
            AdoctlError::Api { status, .. } => if status == 404 {
                r matches AdoctlError::PoolNotFound(p) && p@ == pool@
            } else {
                r == error
            },
            _ => r == error,
        },
{
    map_not_found(error, AdoctlError::PoolNotFound(pool.to_owned()))
}

/// The message when the job list repeats a continuation token.
pub open spec fn repeated_token_message() -> Seq<char> {
    "工作清單 API 重複回傳相同 continuation token。"@
}

/// Reading a pool's job requests page by page: each page's continuation token
/// asks for the next, a page without one is the last, and a token that comes
/// back a second time stops the listing with a `Pagination` error.
#[derive(Debug)]
pub struct JobListing {
    pool_id: u32,
    token: Option<String>,
    seen: Vec<String>,
    jobs: Vec<JobRequest>,
    done: bool,
}

impl JobListing {
    pub closed spec fn jobs_read(&self) -> Seq<JobRequest> {
        self.jobs@
    }

    /// The tokens received so far, in order.
    pub closed spec fn tokens_seen(&self) -> Seq<Seq<char>> {
        self.seen@.map_values(|t: String| t@)
    }

    pub closed spec fn next_token(&self) -> Option<Seq<char>> {
        match self.token {
            Some(t) => Some(t@),
            None => None,
        }
    }

    pub closed spec fn pool(&self) -> u32 {
        self.pool_id
    }

    pub closed spec fn finished(&self) -> bool {
        self.done
    }

    /// No token was received twice, and the next token is the last one received.
    pub closed spec fn well_formed(&self) -> bool {
        &&& self.tokens_seen().no_duplicates()
        &&& match self.next_token() {
            Some(t) => self.tokens_seen().len() > 0 && self.tokens_seen().last() == t,
            None => true,
        }
    }

    pub fn new(pool_id: u32) -> (r: JobListing)
        ensures
            r.well_formed(),
            r.jobs_read() == Seq::<JobRequest>::empty(),
            r.tokens_seen() == Seq::<Seq<char>>::empty(),
            r.next_token() is None,
            r.pool() == pool_id,
            !r.finished(),
    {
        let r = JobListing { pool_id, token: None, seen: Vec::new(), jobs: Vec::new(), done: false };
        assert(r.tokens_seen() =~= Seq::<Seq<char>>::empty());
        r
    }

    /// The request for the next page, or `None` once the last was read.
    pub fn next_request(&self) -> (r: Option<ApiRequest>)
        ensures
            self.finished() ==> r is None,
            !self.finished() ==> (r matches Some(req) && req.describes(
                HttpMethod::Get,
                AdoService::Core,
                "_apis/distributedtask/pools/"@ + text::decimal(self.pool() as nat) + "/jobrequests"@,
                jobs_query(self.next_token()),
            )),
    {
        if self.done {
            return None;
        }
        match &self.token {
            Some(t) => Some(job_requests_request(self.pool_id, Some(t.as_str()))),
            None => Some(job_requests_request(self.pool_id, None)),
        }
    }

    fn has_seen(&self, token: &String) -> (r: bool)
        ensures
            r == self.tokens_seen().contains(token@),
    {
        let mut i: usize = 0;
        while i < self.seen.len()
            invariant
                i <= self.seen@.len(),
                forall|j: int| 0 <= j < i ==> #[trigger] self.seen@[j]@ != token@,
            decreases self.seen@.len() - i,
        {
            if self.seen[i] == *token {
                assert(self.tokens_seen()[i as int] == token@);
                return true;
            }
            i += 1;
        }
        proof {
            if self.tokens_seen().contains(token@) {
                let k = choose|k: int| 0 <= k < self.tokens_seen().len() && self.tokens_seen()[k] == token@;
                assert(self.seen@[k]@ == token@);
            }
        }
        false
    }

    /// Takes in a page and the raw continuation token header of its response.
    pub fn receive_page(&mut self, page: Vec<JobRequest>, continuation_header: Option<&str>) -> (r: Result<(), AdoctlError>)
        requires
            old(self).well_formed(),
            !old(self).finished(),
        ensures
            final(self).well_formed(),
            final(self).jobs_read() == old(self).jobs_read() + page@,
            final(self).pool() == old(self).pool(),
            match continuation_token_of(crate::users::optional_text(continuation_header)) {
                None => r is Ok && final(self).finished() && final(self).next_token() is None
                    && final(self).tokens_seen() == old(self).tokens_seen(),
                Some(t) => if old(self).tokens_seen().contains(t) {
                    (r matches Err(AdoctlError::Pagination(m)) && m@ == repeated_token_message())
                        && final(self).finished() && final(self).next_token() is None
                        && final(self).tokens_seen() == old(self).tokens_seen()
                } else {
                    r is Ok && !final(self).finished() && final(self).next_token() == Some(t)
                        && final(self).tokens_seen() == old(self).tokens_seen().push(t)
                },
            },
    {
        let mut page = page;
        self.jobs.append(&mut page);
        let token = continuation_token_from_header(continuation_header);
        match token {
            None => {
                self.token = None;
                self.done = true;
                Ok(())
            },
            Some(t) => {
                if self.has_seen(&t) {
                    self.token = None;
                    self.done = true;
                    Err(AdoctlError::Pagination("工作清單 API 重複回傳相同 continuation token。".to_owned()))
                } else {
                    let ghost before = self.tokens_seen();
                    self.seen.push(t.clone());
                    assert(self.tokens_seen() =~= before.push(t@));
                    proof {
                        assert forall|i: int, j: int|
                            0 <= i < self.tokens_seen().len() && 0 <= j < self.tokens_seen().len() && i != j
                            implies self.tokens_seen()[i] != self.tokens_seen()[j] by {
                            if i < before.len() && j < before.len() {
                            } else if i < before.len() {
                                assert(before[i] != t@);
                            } else {
                                assert(before[j] != t@);
                            }
                        }
                    }
                    self.token = Some(t);
                    Ok(())
                }
            },
        }
    }

    pub fn into_jobs(self) -> (r: Vec<JobRequest>)
        ensures
            r@ == self.jobs_read(),
    {
        self.jobs
    }
}

} // verus!
