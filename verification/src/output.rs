//! Table output of users, projects, agent pools, agents and job requests, and
//! the labels shown in the tables.

use vstd::prelude::*;
use crate::pools::{Agent, AgentPool, JobRequest, JobRequestState};
use crate::projects::Project;
use crate::table::{render_table, table_text};
use crate::text;
use crate::users::UserEntitlement;

verus! {

/// `value` shown in a table: the value when it is present and not empty, else `-`.
pub open spec fn or_dash(value: Option<Seq<char>>) -> Seq<char> {
    match value {
        Some(v) => if v.len() > 0 {
            v
        } else {
            "-"@
        },
        None => "-"@,
    }
}

/// The text of an optional string.
pub open spec fn opt_text(value: Option<String>) -> Option<Seq<char>> {
    match value {
        Some(v) => Some(v@),
        None => None,
    }
}

pub fn value_or_dash(value: Option<&str>) -> (r: String)
    ensures
        r@ == or_dash(crate::users::optional_text(value)),
{
    match value {
        Some(v) => if v.is_empty() {
            "-".to_owned()
        } else {
            v.to_owned()
        },
        None => "-".to_owned(),
    }
}

fn option_str(value: &Option<String>) -> (r: Option<&str>)
    ensures
        crate::users::optional_text(r) == opt_text(*value),
{
    match value {
        Some(v) => Some(v.as_str()),
        None => None,
    }
}

pub open spec fn boolean_text(value: bool) -> Seq<char> {
    if value {
        "是"@
    } else {
        "否"@
    }
}

pub fn boolean_label(value: bool) -> (r: &'static str)
    ensures
        r@ == boolean_text(value),
{
    if value {
        "是"
    } else {
        "否"
    }
}

/// A pool type in Traditional Chinese; unknown types as they are.
pub open spec fn pool_type_text(value: Seq<char>) -> Seq<char> {
    let key = text::ascii_lower(value);
    if key == "automation"@ {
        "自動化"@
    } else if key == "deployment"@ {
        "部署"@
    } else {
        value
    }
}

pub fn pool_type_label(value: &str) -> (r: String)
    ensures
        r@ == pool_type_text(value@),
{
    let key = text::lower_chars(&text::chars_of(value));
    if text::spells(&key, "automation") {
        "自動化".to_owned()
    } else if text::spells(&key, "deployment") {
        "部署".to_owned()
    } else {
        value.to_owned()
    }
}

/// An agent status in Traditional Chinese; blank is unknown, other values as they are.
pub open spec fn agent_status_text(value: Seq<char>) -> Seq<char> {
    let key = text::ascii_lower(value);
    if key == "online"@ {
        "上線"@
    } else if key == "offline"@ {
        "離線"@
    } else if value.len() == 0 {
        "未知"@
    } else {
        value
    }
}

pub fn agent_status_label(value: &str) -> (r: String)
    ensures
        r@ == agent_status_text(value@),
{
    let key = text::lower_chars(&text::chars_of(value));
    if text::spells(&key, "online") {
        "上線".to_owned()
    } else if text::spells(&key, "offline") {
        "離線".to_owned()
    } else if value.is_empty() {
        "未知".to_owned()
    } else {
        value.to_owned()
    }
}

pub open spec fn job_state_text(value: JobRequestState) -> Seq<char> {
    match value {
        JobRequestState::Queued => "等候中"@,
        JobRequestState::Running => "執行中"@,
        JobRequestState::Completed => "已完成"@,
    }
}

pub fn job_state_label(value: JobRequestState) -> (r: &'static str)
    ensures
        r@ == job_state_text(value),
{
    match value {
        JobRequestState::Queued => "等候中",
        JobRequestState::Running => "執行中",
        JobRequestState::Completed => "已完成",
    }
}

/// A job result in Traditional Chinese: `-` when absent or blank, unknown
/// results as they are.
pub open spec fn job_result_text(value: Option<Seq<char>>) -> Seq<char> {
    match value {
        None => "-"@,
        Some(v) => if v.len() == 0 {
            "-"@
        } else {
            let key = text::ascii_lower(v);
            if key == "succeeded"@ {
                "成功"@
            } else if key == "succeededwithissues"@ {
                "成功但有問題"@
            } else if key == "failed"@ {
                "失敗"@
            } else if key == "canceled"@ || key == "cancelled"@ {
                "已取消"@
            } else if key == "abandoned"@ {
                "已放棄"@
            } else if key == "skipped"@ {
                "已略過"@
            } else {
                v
            }
        },
    }
}

pub fn job_result_label(value: Option<&str>) -> (r: String)
    ensures
        r@ == job_result_text(crate::users::optional_text(value)),
{
    let v = match value {
        None => { return "-".to_owned(); },
        Some(v) => v,
    };
    if v.is_empty() {
        return "-".to_owned();
    }
    let key = text::lower_chars(&text::chars_of(v));
    if text::spells(&key, "succeeded") {
        "成功".to_owned()
    } else if text::spells(&key, "succeededwithissues") {
        "成功但有問題".to_owned()
    } else if text::spells(&key, "failed") {
        "失敗".to_owned()
    } else if text::spells(&key, "canceled") || text::spells(&key, "cancelled") {
        "已取消".to_owned()
    } else if text::spells(&key, "abandoned") {
        "已放棄".to_owned()
    } else if text::spells(&key, "skipped") {
        "已略過".to_owned()
    } else {
        v.to_owned()
    }
}

/// The name shown for a job: its job name, else its definition's, else its
/// owner's, else `-` (empty names skipped).
pub open spec fn job_display_text(job: JobRequest) -> Seq<char> {
    if job.job_name is Some && job.job_name->0@.len() > 0 {
        job.job_name->0@
    } else if job.definition is Some && job.definition->0.name@.len() > 0 {
        job.definition->0.name@
    } else if job.owner is Some && job.owner->0.name@.len() > 0 {
        job.owner->0.name@
    } else {
        "-"@
    }
}

pub fn job_display_name(job: &JobRequest) -> (r: String)
    ensures
        r@ == job_display_text(*job),
{
    if let Some(name) = &job.job_name {
        if !name.as_str().is_empty() {
            return name.clone();
        }
    }
    if let Some(definition) = &job.definition {
        if !definition.name.as_str().is_empty() {
            return definition.name.clone();
        }
    }
    if let Some(owner) = &job.owner {
        if !owner.name.as_str().is_empty() {
            return owner.name.clone();
        }
    }
    "-".to_owned()
}

/// An agent's status label: `online` and `offline` in any ASCII case read
/// 上線 and 離線, two different labels; a blank status reads 未知; any other
/// status is shown as it is.
pub proof fn lemma_agent_status_labels(value: Seq<char>)
    ensures
        text::ascii_lower(value) == "online"@ ==> agent_status_text(value) == "上線"@,
        text::ascii_lower(value) == "offline"@ ==> agent_status_text(value) == "離線"@,
        "上線"@ != "離線"@,
        value.len() == 0 ==> agent_status_text(value) == "未知"@,
        value.len() > 0 && text::ascii_lower(value) != "online"@ && text::ascii_lower(value) != "offline"@
            ==> agent_status_text(value) == value,
{
    reveal_strlit("上線");
    reveal_strlit("離線");
    reveal_strlit("online");
    reveal_strlit("offline");
    assert("上線"@[0] != "離線"@[0]);
    assert("online"@.len() != "offline"@.len());
    assert(text::ascii_lower(value).len() == value.len());
}

/// A pool type label: `automation` and `deployment` in any ASCII case read
/// 自動化 and 部署; any other type is shown as it is.
pub proof fn lemma_pool_type_labels(value: Seq<char>)
    ensures
        text::ascii_lower(value) == "automation"@ ==> pool_type_text(value) == "自動化"@,
        text::ascii_lower(value) == "deployment"@ ==> pool_type_text(value) == "部署"@,
        text::ascii_lower(value) != "automation"@ && text::ascii_lower(value) != "deployment"@
            ==> pool_type_text(value) == value,
{
    reveal_strlit("automation");
    reveal_strlit("deployment");
    assert("automation"@[0] != "deployment"@[0]);
}

/// A job result label: a missing or blank result reads `-`; `succeeded`,
/// `failed` and the other known results in any ASCII case read their
/// Traditional Chinese names, success and failure differently; any other
/// result is shown as it is.
pub proof fn lemma_job_result_labels(value: Option<Seq<char>>)
    ensures
        value is None ==> job_result_text(value) == "-"@,
        (value matches Some(v) && v.len() == 0) ==> job_result_text(value) == "-"@,
        (value matches Some(v) && text::ascii_lower(v) == "succeeded"@) ==> job_result_text(value) == "成功"@,
        (value matches Some(v) && text::ascii_lower(v) == "succeededwithissues"@) ==> job_result_text(value)
            == "成功但有問題"@,
        (value matches Some(v) && text::ascii_lower(v) == "failed"@) ==> job_result_text(value) == "失敗"@,
        (value matches Some(v) && (text::ascii_lower(v) == "canceled"@ || text::ascii_lower(v) == "cancelled"@))
            ==> job_result_text(value) == "已取消"@,
        (value matches Some(v) && text::ascii_lower(v) == "abandoned"@) ==> job_result_text(value) == "已放棄"@,
        (value matches Some(v) && text::ascii_lower(v) == "skipped"@) ==> job_result_text(value) == "已略過"@,
        "成功"@ != "失敗"@,
{
    reveal_strlit("成功");
    reveal_strlit("失敗");
    reveal_strlit("succeeded");
    reveal_strlit("failed");
    reveal_strlit("canceled");
    reveal_strlit("cancelled");
    reveal_strlit("abandoned");
    reveal_strlit("skipped");
    reveal_strlit("succeededwithissues");
    assert("成功"@[0] != "失敗"@[0]);
    assert("succeeded"@.len() != "succeededwithissues"@.len());
    assert("succeeded"@[0] != "failed"@[0] && "succeeded"@[0] != "canceled"@[0]);
    assert("succeeded"@[0] != "cancelled"@[0] && "succeeded"@[0] != "abandoned"@[0]);
    assert("succeededwithissues"@.len() != "failed"@.len() && "succeededwithissues"@.len() != "canceled"@.len());
    assert("succeededwithissues"@.len() != "cancelled"@.len() && "succeededwithissues"@.len() != "abandoned"@.len());
    assert("failed"@.len() != "canceled"@.len() && "failed"@.len() != "cancelled"@.len());
    assert("failed"@.len() != "abandoned"@.len() && "canceled"@.len() != "abandoned"@.len());
    assert("cancelled"@.len() != "abandoned"@.len() || "cancelled"@[0] != "abandoned"@[0]);
    assert("skipped"@[0] != "succeeded"@[0] || "skipped"@[1] != "succeeded"@[1]);
    assert("skipped"@.len() != "succeededwithissues"@.len() && "skipped"@[0] != "failed"@[0]);
    assert("skipped"@[0] != "canceled"@[0] && "skipped"@[0] != "abandoned"@[0]);
    if let Some(v) = value {
        assert(text::ascii_lower(v).len() == v.len());
    }
}

/// The three job states have three different labels.
pub proof fn lemma_job_state_labels_distinct(a: JobRequestState, b: JobRequestState)
    ensures
        a != b ==> job_state_text(a) != job_state_text(b),
        job_state_text(JobRequestState::Completed) == "已完成"@,
        job_state_text(JobRequestState::Running) == "執行中"@,
        job_state_text(JobRequestState::Queued) == "等候中"@,
{
    reveal_strlit("等候中");
    reveal_strlit("執行中");
    reveal_strlit("已完成");
    assert("等候中"@[0] != "執行中"@[0]);
    assert("等候中"@[0] != "已完成"@[0]);
    assert("執行中"@[0] != "已完成"@[0]);
}

/// Yes and no read 是 and 否; a missing or empty value reads `-`, any other
/// value as it is; a job is named by its own non-empty name first.
pub proof fn lemma_plain_labels(value: Option<Seq<char>>, job: JobRequest)
    ensures
        boolean_text(true) == "是"@,
        boolean_text(false) == "否"@,
        boolean_text(true) != boolean_text(false),
        (value matches Some(v) && v.len() > 0) ==> or_dash(value) == value->0,
        !(value matches Some(v) && v.len() > 0) ==> or_dash(value) == "-"@,
        (job.job_name matches Some(n) && n@.len() > 0) ==> job_display_text(job) == job.job_name->0@,
{
    reveal_strlit("是");
    reveal_strlit("否");
    assert("是"@[0] != "否"@[0]);
}

/// A record shown as one table row.
pub trait TableRow {
    /// The cells of the row.
    spec fn cells_of(&self) -> Seq<Seq<char>>;

    /// How many cells every row has.
    spec fn columns() -> nat;

    fn cells(&self) -> (r: Vec<String>)
        ensures
            r.deep_view() == self.cells_of(),
    ;

    proof fn lemma_cell_count(&self)
        ensures
            self.cells_of().len() == Self::columns(),
    ;
}

/// The cells of each item.
pub open spec fn item_rows<T: TableRow>(items: Seq<T>) -> Seq<Seq<Seq<char>>> {
    items.map_values(|x: T| x.cells_of())
}

/// The text of each label.
pub open spec fn label_texts(values: Seq<&str>) -> Seq<Seq<char>> {
    values.map_values(|v: &str| v@)
}

/// The line of each project entitlement.
pub open spec fn entitlement_lines(es: Seq<crate::users::ProjectEntitlement>) -> Seq<Seq<char>> {
    es.map_values(|e: crate::users::ProjectEntitlement| entitlement_line(e))
}

/// The rows of `items`, in order.
pub fn rows_of<T: TableRow>(items: &[T]) -> (r: Vec<Vec<String>>)
    ensures
        r.deep_view() == item_rows(items@),
{
    let mut rows: Vec<Vec<String>> = Vec::new();
    let mut k: usize = 0;
    while k < items.len()
        invariant
            k <= items@.len(),
            rows.deep_view() == item_rows(items@.take(k as int)),
            rows@.len() == k,
        decreases items@.len() - k,
    {
        let row = items[k].cells();
        let ghost before = rows@;
        let ghost prev = rows.deep_view();
        let ghost row_view = row.deep_view();
        rows.push(row);
        k += 1;
        let ghost target = item_rows(items@.take(k as int));
        assert forall|i: int| 0 <= i < rows@.len() implies rows.deep_view()[i] == target[i] by {
            if i < before.len() {
                assert(rows@[i] == before[i]);
                assert(prev[i] == before[i].deep_view());
                assert(item_rows(items@.take(k - 1))[i] == target[i]);
            } else {
                assert(rows@[i] == row);
            }
        }
        assert(rows.deep_view() =~= item_rows(items@.take(k as int)));
    }
    assert(items@.take(items@.len() as int) =~= items@);
    rows
}

/// A table of `items` under `headers`.
pub open spec fn items_table<T: TableRow>(headers: Seq<Seq<char>>, items: Seq<T>) -> Seq<char> {
    table_text(headers, item_rows(items))
}

fn render_items<T: TableRow>(headers: &Vec<String>, items: &[T]) -> (r: String)
    requires
        headers@.len() == T::columns(),
    ensures
        r@ == items_table(headers.deep_view(), items@),
{
    let rows = rows_of(items);
    proof {
        assert forall|k: int| 0 <= k < rows.deep_view().len() implies (#[trigger] rows.deep_view()[k]).len()
            <= headers.deep_view().len() by {
            items@[k].lemma_cell_count();
        }
    }
    render_table(headers, &rows)
}

fn labels(values: &[&str]) -> (r: Vec<String>)
    ensures
        r.deep_view() == label_texts(values@),
{
    let mut out: Vec<String> = Vec::new();
    let mut k: usize = 0;
    while k < values.len()
        invariant
            k <= values@.len(),
            out.deep_view() == label_texts(values@.take(k as int)),
            out@.len() == k,
        decreases values@.len() - k,
    {
        let ghost before = out@;
        let ghost prev = out.deep_view();
        out.push(values[k].to_owned());
        k += 1;
        let ghost target = label_texts(values@.take(k as int));
        assert forall|i: int| 0 <= i < out@.len() implies out.deep_view()[i] == target[i] by {
            if i < before.len() {
                assert(out@[i] == before[i]);
                assert(prev[i] == before[i].deep_view());
                assert(label_texts(values@.take(k - 1))[i] == target[i]);
            }
        }
        assert(out.deep_view() =~= label_texts(values@.take(k as int)));
    }
    assert(values@.take(values@.len() as int) =~= values@);
    out
}

impl TableRow for UserEntitlement {
    open spec fn cells_of(&self) -> Seq<Seq<char>> {
        seq![
            self.display_text(),
            self.upn_text(),
            self.id@,
            self.access_level.account_license_type@,
            self.access_level.license_display_name@,
        ]
    }

    open spec fn columns() -> nat {
        5
    }

    fn cells(&self) -> (r: Vec<String>) {
        let mut r: Vec<String> = Vec::new();
        r.push(self.display_name());
        r.push(self.upn());
        r.push(self.id.clone());
        r.push(self.access_level.account_license_type.clone());
        r.push(self.access_level.license_display_name.clone());
        assert(r.deep_view() =~= self.cells_of());
        r
    }

    proof fn lemma_cell_count(&self) {
    }
}

pub open spec fn user_headers() -> Seq<Seq<char>> {
    seq!["姓名"@, "UPN"@, "Id"@, "AccessLevel"@, "授權名稱"@]
}

/// The user table, or a message when there are no users.
pub open spec fn user_table_text(users: Seq<UserEntitlement>) -> Seq<char> {
    if users.len() == 0 {
        "沒有符合條件的使用者。"@
    } else {
        items_table(user_headers(), users)
    }
}

pub fn render_user_table(users: &[UserEntitlement]) -> (r: String)
    ensures
        r@ == user_table_text(users@),
{
    if users.len() == 0 {
        return "沒有符合條件的使用者。".to_owned();
    }
    let headers = labels(&["姓名", "UPN", "Id", "AccessLevel", "授權名稱"]);
    assert(headers.deep_view() =~= user_headers());
    render_items(&headers, users)
}

impl TableRow for Project {
    open spec fn cells_of(&self) -> Seq<Seq<char>> {
        seq![self.name@, self.id@, self.state@, self.visibility@, self.last_update_time@]
    }

    open spec fn columns() -> nat {
        5
    }

    fn cells(&self) -> (r: Vec<String>) {
        let mut r: Vec<String> = Vec::new();
        r.push(self.name.clone());
        r.push(self.id.clone());
        r.push(self.state.clone());
        r.push(self.visibility.clone());
        r.push(self.last_update_time.clone());
        assert(r.deep_view() =~= self.cells_of());
        r
    }

    proof fn lemma_cell_count(&self) {
    }
}

pub open spec fn project_headers() -> Seq<Seq<char>> {
    seq!["名稱"@, "Id"@, "狀態"@, "可見性"@, "最後更新"@]
}

/// The project table, or a message when there are no projects.
pub open spec fn project_table_text(projects: Seq<Project>) -> Seq<char> {
    if projects.len() == 0 {
        "沒有符合條件的專案。"@
    } else {
        items_table(project_headers(), projects)
    }
}

pub fn render_project_table(projects: &[Project]) -> (r: String)
    ensures
        r@ == project_table_text(projects@),
{
    if projects.len() == 0 {
        return "沒有符合條件的專案。".to_owned();
    }
    let headers = labels(&["名稱", "Id", "狀態", "可見性", "最後更新"]);
    assert(headers.deep_view() =~= project_headers());
    render_items(&headers, projects)
}

impl TableRow for AgentPool {
    open spec fn cells_of(&self) -> Seq<Seq<char>> {
        seq![
            self.name@,
            text::decimal(self.id as nat),
            pool_type_text(self.pool_type@),
            boolean_text(self.is_hosted),
            text::decimal(self.size as nat),
            match self.target_size {
                Some(t) => text::decimal(t as nat),
                None => "-"@,
            },
        ]
    }

    open spec fn columns() -> nat {
        6
    }

    fn cells(&self) -> (r: Vec<String>) {
        let mut r: Vec<String> = Vec::new();
        r.push(self.name.clone());
        r.push(text::decimal_text(self.id as u64));
        r.push(pool_type_label(self.pool_type.as_str()));
        r.push(boolean_label(self.is_hosted).to_owned());
        r.push(text::decimal_text(self.size as u64));
        r.push(
            match self.target_size {
                Some(t) => text::decimal_text(t as u64),
                None => "-".to_owned(),
            },
        );
        assert(r.deep_view() =~= self.cells_of());
        r
    }

    proof fn lemma_cell_count(&self) {
    }
}

pub open spec fn agent_pool_headers() -> Seq<Seq<char>> {
    seq!["名稱"@, "Id"@, "型別"@, "Microsoft 代管"@, "代理程式數"@, "目標數"@]
}

/// The agent pool table, or a message when there are no pools.
pub open spec fn agent_pool_table_text(pools: Seq<AgentPool>) -> Seq<char> {
    if pools.len() == 0 {
        "沒有符合條件的代理程式集區。"@
    } else {
        items_table(agent_pool_headers(), pools)
    }
}

pub fn render_agent_pool_table(pools: &[AgentPool]) -> (r: String)
    ensures
        r@ == agent_pool_table_text(pools@),
{
    if pools.len() == 0 {
        return "沒有符合條件的代理程式集區。".to_owned();
    }
    let headers = labels(&["名稱", "Id", "型別", "Microsoft 代管", "代理程式數", "目標數"]);
    assert(headers.deep_view() =~= agent_pool_headers());
    render_items(&headers, pools)
}

impl TableRow for Agent {
    open spec fn cells_of(&self) -> Seq<Seq<char>> {
        seq![
            self.name@,
            text::decimal(self.id as nat),
            agent_status_text(self.status@),
            boolean_text(self.enabled),
            self.version@,
            self.os_description@,
            match self.assigned_request {
                Some(job) => job_display_text(job),
                None => "-"@,
            },
        ]
    }

    open spec fn columns() -> nat {
        7
    }

    fn cells(&self) -> (r: Vec<String>) {
        let current_job = match &self.assigned_request {
            Some(job) => job_display_name(job),
            None => "-".to_owned(),
        };
        let mut r: Vec<String> = Vec::new();
        r.push(self.name.clone());
        r.push(text::decimal_text(self.id as u64));
        r.push(agent_status_label(self.status.as_str()));
        r.push(boolean_label(self.enabled).to_owned());
        r.push(self.version.clone());
        r.push(self.os_description.clone());
        r.push(current_job);
        assert(r.deep_view() =~= self.cells_of());
        r
    }

    proof fn lemma_cell_count(&self) {
    }
}

pub open spec fn agent_headers() -> Seq<Seq<char>> {
    seq!["名稱"@, "Id"@, "狀態"@, "已啟用"@, "版本"@, "作業系統"@, "目前工作"@]
}

/// The agent table, or a message when the pool has no agents.
pub open spec fn agent_table_text(agents: Seq<Agent>) -> Seq<char> {
    if agents.len() == 0 {
        "此代理程式集區沒有代理程式。"@
    } else {
        items_table(agent_headers(), agents)
    }
}

pub fn render_agent_table(agents: &[Agent]) -> (r: String)
    ensures
        r@ == agent_table_text(agents@),
{
    if agents.len() == 0 {
        return "此代理程式集區沒有代理程式。".to_owned();
    }
    let headers = labels(&["名稱", "Id", "狀態", "已啟用", "版本", "作業系統", "目前工作"]);
    assert(headers.deep_view() =~= agent_headers());
    render_items(&headers, agents)
}

/// The name of the agent a job is reserved for, or `-`.
pub open spec fn reserved_agent_text(job: JobRequest) -> Seq<char> {
    match job.reserved_agent {
        Some(agent) => if agent.name@.len() > 0 {
            agent.name@
        } else {
            "-"@
        },
        None => "-"@,
    }
}

impl TableRow for JobRequest {
    open spec fn cells_of(&self) -> Seq<Seq<char>> {
        seq![
            job_display_text(*self),
            text::decimal(self.request_id as nat),
            job_state_text(self.state_of()),
            job_result_text(opt_text(self.result)),
            reserved_agent_text(*self),
            or_dash(opt_text(self.queue_time)),
            or_dash(opt_text(self.assign_time)),
            or_dash(opt_text(self.finish_time)),
        ]
    }

    open spec fn columns() -> nat {
        8
    }

    fn cells(&self) -> (r: Vec<String>) {
        let agent = match &self.reserved_agent {
            Some(agent) => if agent.name.as_str().is_empty() {
                "-".to_owned()
            } else {
                agent.name.clone()
            },
            None => "-".to_owned(),
        };
        let mut r: Vec<String> = Vec::new();
        r.push(job_display_name(self));
        r.push(text::decimal_text(self.request_id));
        r.push(job_state_label(self.state()).to_owned());
        r.push(job_result_label(option_str(&self.result)));
        r.push(agent);
        r.push(value_or_dash(option_str(&self.queue_time)));
        r.push(value_or_dash(option_str(&self.assign_time)));
        r.push(value_or_dash(option_str(&self.finish_time)));
        assert(r.deep_view() =~= self.cells_of());
        r
    }

    proof fn lemma_cell_count(&self) {
    }
}

pub open spec fn job_headers() -> Seq<Seq<char>> {
    seq!["工作名稱"@, "Request Id"@, "狀態"@, "結果"@, "代理程式"@, "排入時間"@, "指派時間"@, "完成時間"@]
}

/// The job table, or a message when the pool has no job requests.
pub open spec fn job_table_text(jobs: Seq<JobRequest>) -> Seq<char> {
    if jobs.len() == 0 {
        "此代理程式集區沒有工作要求。"@
    } else {
        items_table(job_headers(), jobs)
    }
}

pub fn render_job_table(jobs: &[JobRequest]) -> (r: String)
    ensures
        r@ == job_table_text(jobs@),
{
    if jobs.len() == 0 {
        return "此代理程式集區沒有工作要求。".to_owned();
    }
    let headers = labels(&["工作名稱", "Request Id", "狀態", "結果", "代理程式", "排入時間", "指派時間", "完成時間"]);
    assert(headers.deep_view() =~= job_headers());
    render_items(&headers, jobs)
}

/// Lines joined by line breaks.
pub open spec fn joined_lines(lines: Seq<Seq<char>>) -> Seq<char>
    decreases lines.len(),
{
    if lines.len() == 0 {
        Seq::empty()
    } else if lines.len() == 1 {
        lines[0]
    } else {
        joined_lines(lines.drop_last()) + seq!['\n'] + lines.last()
    }
}

fn join_lines(lines: &Vec<String>) -> (r: String)
    ensures
        r@ == joined_lines(lines.deep_view()),
{
    let ghost l = lines.deep_view();
    let mut out = String::new();
    let mut k: usize = 0;
    assert(l.take(0) =~= Seq::<Seq<char>>::empty());
    while k < lines.len()
        invariant
            l == lines.deep_view(),
            k <= lines.len(),
            out@ == joined_lines(l.take(k as int)),
        decreases lines.len() - k,
    {
        if k > 0 {
            text::push_char(&mut out, '\n');
        }
        out.append(lines[k].as_str());
        k += 1;
        proof {
            let t = l.take(k as int);
            assert(t.drop_last() =~= l.take(k - 1));
            if k == 1 {
                assert(out@ =~= t[0]);
            } else {
                assert(out@ =~= joined_lines(t));
            }
        }
    }
    assert(l.take(lines.len() as int) =~= l);
    out
}

/// The line of one project entitlement: `  - name (id)`.
pub open spec fn entitlement_line(e: crate::users::ProjectEntitlement) -> Seq<char> {
    "  - "@ + e.project_ref.name@ + " ("@ + e.project_ref.id@ + ")"@
}

/// The lines that describe one user, with the projects they can access when asked.
pub open spec fn user_detail_lines(user: UserEntitlement, include_projects: bool) -> Seq<Seq<char>> {
    let base = seq![
        "Id: "@ + user.id@,
        "姓名: "@ + user.display_text(),
        "UPN: "@ + user.upn_text(),
        "AccessLevel: "@ + user.access_level.account_license_type@,
        "授權名稱: "@ + user.access_level.license_display_name@,
        "狀態: "@ + user.access_level.status@,
    ];
    if !include_projects {
        base
    } else if user.project_entitlements@.len() == 0 {
        base + seq!["可存取專案:"@, "  （無資料）"@]
    } else {
        base + seq!["可存取專案:"@] + entitlement_lines(user.project_entitlements@)
    }
}

fn labeled(label: &str, value: &str) -> (r: String)
    ensures
        r@ == label@ + value@,
{
    let mut s = label.to_owned();
    s.append(value);
    s
}

/// One user as lines of `label: value`, with the projects they can access when
/// `include_projects` is set.
pub fn render_user_text(user: &UserEntitlement, include_projects: bool) -> (r: String)
    ensures
        r@ == joined_lines(user_detail_lines(*user, include_projects)),
{
    let mut lines: Vec<String> = Vec::new();
    lines.push(labeled("Id: ", user.id.as_str()));
    lines.push(labeled("姓名: ", user.display_name().as_str()));
    lines.push(labeled("UPN: ", user.upn().as_str()));
    lines.push(labeled("AccessLevel: ", user.access_level.account_license_type.as_str()));
    lines.push(labeled("授權名稱: ", user.access_level.license_display_name.as_str()));
    lines.push(labeled("狀態: ", user.access_level.status.as_str()));
    let ghost base = lines.deep_view();
    assert(lines@.len() == 6);
    if include_projects {
        lines.push("可存取專案:".to_owned());
        if user.project_entitlements.len() == 0 {
            lines.push("  （無資料）".to_owned());
        } else {
            let ghost es = user.project_entitlements@;
            let mut k: usize = 0;
            while k < user.project_entitlements.len()
                invariant
                    es == user.project_entitlements@,
                    k <= es.len(),
                    lines.deep_view() == base + seq!["可存取專案:"@] + entitlement_lines(es.take(k as int)),
                    lines@.len() == base.len() + 1 + k,
                decreases es.len() - k,
            {
                let e = &user.project_entitlements[k];
                let mut line = "  - ".to_owned();
                line.append(e.project_ref.name.as_str());
                line.append(" (");
                line.append(e.project_ref.id.as_str());
                line.append(")");
                let ghost before = lines@;
                let ghost prev = lines.deep_view();
                lines.push(line);
                k += 1;
                let ghost target = base + seq!["可存取專案:"@] + entitlement_lines(es.take(k as int));
                assert forall|i: int| 0 <= i < lines@.len() implies lines.deep_view()[i] == target[i] by {
                    let old_target = base + seq!["可存取專案:"@] + entitlement_lines(es.take(k - 1));
                    if i < before.len() {
                        assert(lines@[i] == before[i]);
                        assert(prev[i] == before[i].deep_view());
                        assert(old_target[i] == target[i]);
                    } else {
                        assert(target[i] == entitlement_line(es[k - 1]));
                    }
                }
                assert(lines.deep_view() =~= base + seq!["可存取專案:"@] + entitlement_lines(es.take(k as int)));
            }
            assert(es.take(es.len() as int) =~= es);
        }
    }
    assert(lines.deep_view() =~= user_detail_lines(*user, include_projects));
    join_lines(&lines)
}

} // verus!
