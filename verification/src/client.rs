//! The Fabric REST API as the client uses it: the data it exchanges, the URLs it
//! calls, and every decision taken on a response.
//!
//! Requests themselves are sent by the caller; the functions here take what came
//! back (status codes, header values, parsed bodies) and say what happens next.
use vstd::prelude::*;
use vstd::string::*;
use crate::json::{as_str_spec, get_spec, opt_str_view, Json, JsonView};
use crate::text::{
    eq_ignore_ascii_case, eq_ignore_ascii_case_spec, find_from, is_guid, is_guid_spec,
    law_eq_ignore_ascii_case_is_equivalence, lemma_find_from_bounds, lemma_find_from_is,
    parse_u64, parse_u64_spec, trim, trim_end_matches, trim_end_matches_spec, trim_spec,
};

verus! {

broadcast use crate::json::group_json_view;

/// Base URL of the Fabric REST API.
pub const FABRIC_BASE: &'static str = "https://api.fabric.microsoft.com/v1";

/// Seconds to wait before polling when the service does not say.
pub const DEFAULT_RETRY_SECS: u64 = 2;

/// Most polls of a long-running operation before giving up.
pub const MAX_OPERATION_POLLS: u64 = 60;

/// A workspace.
pub struct Workspace {
    pub id: String,
    pub display_name: String,
}

/// One page of a workspace listing.
pub struct WorkspacePage {
    pub value: Vec<Workspace>,
    pub continuation_uri: Option<String>,
}

/// An item (notebook, lakehouse, warehouse, ...).
pub struct FabricItem {
    pub id: String,
    pub display_name: String,
    pub item_type: String,
    pub description: Option<String>,
}

/// One page of an item listing.
pub struct ItemPage {
    pub value: Vec<FabricItem>,
    pub continuation_uri: Option<String>,
}

/// The answer of `getDefinition`.
pub struct ItemDefinition {
    pub definition: Option<DefinitionBody>,
}

/// The parts of an item definition.
pub struct DefinitionBody {
    pub parts: Vec<DefinitionPart>,
}

/// One part of an item definition; `payload` is Base64.
pub struct DefinitionPart {
    pub path: String,
    pub payload: String,
    pub payload_type: String,
}

/// A job instance.
pub struct JobInstance {
    pub id: Option<String>,
    pub status: Option<String>,
    pub start_time_utc: Option<String>,
    pub end_time_utc: Option<String>,
    pub failure_reason: Option<Json>,
}

/// Errors that the client's own checks raise.
pub enum ClientError {
    /// A reference that is not `workspace/item`.
    InvalidReference(String),
    /// No workspace with this display name.
    WorkspaceNotFound(String),
    /// No item of this type with this display name.
    ItemNotFound { item_type: String, item_name: String },
}

impl ClientError {
    /// The message shown for this error.
    pub fn message(&self) -> (r: String)
        ensures
            match self {
                ClientError::InvalidReference(s) => r@ == "Invalid reference '"@ + s@
                    + "'; expected format: workspace/item"@,
                ClientError::WorkspaceNotFound(n) => r@ == "Workspace '"@ + n@ + "' not found"@,
                ClientError::ItemNotFound { item_type, item_name } => r@ == item_type@ + " '"@
                    + item_name@ + "' not found in workspace"@,
            },
    {
        match self {
            ClientError::InvalidReference(s) => {
                let mut m = String::from_str("Invalid reference '");
                m.append(s.as_str());
                m.append("'; expected format: workspace/item");
                m
            },
            ClientError::WorkspaceNotFound(n) => {
                let mut m = String::from_str("Workspace '");
                m.append(n.as_str());
                m.append("' not found");
                m
            },
            ClientError::ItemNotFound { item_type, item_name } => {
                let mut m = item_type.clone();
                m.append(" '");
                m.append(item_name.as_str());
                m.append("' not found in workspace");
                m
            },
        }
    }
}

// ---------------------------------------------------------------------------
// References
// ---------------------------------------------------------------------------

/// `reference.splitn(2, '/')` has two non-empty parts.
pub open spec fn parse_ref_spec(reference: Seq<char>) -> Option<(Seq<char>, Seq<char>)> {
    let k = find_from(reference, '/', 0);
    if 0 < k && k + 1 < reference.len() {
        Some((reference.subrange(0, k), reference.subrange(k + 1, reference.len() as int)))
    } else {
        None
    }
}

/// Parses a `workspace/item` reference at its first '/'; both parts must be non-empty
/// (the item part may hold further '/').
pub fn parse_ref(reference: &str) -> (r: Result<(&str, &str), ClientError>)
    ensures
        match parse_ref_spec(reference@) {
            Some((w, i)) => r matches Ok((a, b)) && a@ == w && b@ == i,
            None => r matches Err(ClientError::InvalidReference(s)) && s@ == reference@,
        },
{
    let n = reference.unicode_len();
    let mut k: usize = 0;
    while k < n && reference.get_char(k) != '/'
        invariant
            n == reference@.len(),
            k <= n,
            find_from(reference@, '/', 0) == find_from(reference@, '/', k as int),
        decreases n - k,
    {
        k = k + 1;
    }
    if 0 < k && k < n && n - k >= 2 {
        Ok((reference.substring_char(0, k), reference.substring_char(k + 1, n)))
    } else {
        Err(ClientError::InvalidReference(reference.to_owned()))
    }
}

// ---------------------------------------------------------------------------
// URLs
// ---------------------------------------------------------------------------

/// `FABRIC_BASE/workspaces`.
pub fn workspaces_url() -> (r: String)
    ensures
        r@ == FABRIC_BASE@ + "/workspaces"@,
{
    let mut u = String::from_str(FABRIC_BASE);
    u.append("/workspaces");
    u
}

/// `FABRIC_BASE/workspaces/{ws}`.
pub fn workspace_url(ws_id: &str) -> (r: String)
    ensures
        r@ == FABRIC_BASE@ + "/workspaces/"@ + ws_id@,
{
    let mut u = String::from_str(FABRIC_BASE);
    u.append("/workspaces/");
    u.append(ws_id);
    u
}

/// `FABRIC_BASE/workspaces/{ws}/items`: where items are created.
pub fn create_item_url(ws_id: &str) -> (r: String)
    ensures
        r@ == FABRIC_BASE@ + "/workspaces/"@ + ws_id@ + "/items"@,
{
    let mut u = workspace_url(ws_id);
    u.append("/items");
    u
}

/// `FABRIC_BASE/workspaces/{ws}/items?type={type}`: the first page of a listing.
pub fn list_items_url(ws_id: &str, item_type: &str) -> (r: String)
    ensures
        r@ == FABRIC_BASE@ + "/workspaces/"@ + ws_id@ + "/items?type="@ + item_type@,
{
    let mut u = workspace_url(ws_id);
    u.append("/items?type=");
    u.append(item_type);
    u
}

/// `FABRIC_BASE/workspaces/{ws}/items/{item}`.
pub fn item_url(ws_id: &str, item_id: &str) -> (r: String)
    ensures
        r@ == FABRIC_BASE@ + "/workspaces/"@ + ws_id@ + "/items/"@ + item_id@,
{
    let mut u = workspace_url(ws_id);
    u.append("/items/");
    u.append(item_id);
    u
}

/// `{item}/getDefinition?format={format}`.
pub fn get_definition_url(ws_id: &str, item_id: &str, format: &str) -> (r: String)
    ensures
        r@ == FABRIC_BASE@ + "/workspaces/"@ + ws_id@ + "/items/"@ + item_id@
            + "/getDefinition?format="@ + format@,
{
    let mut u = item_url(ws_id, item_id);
    u.append("/getDefinition?format=");
    u.append(format);
    u
}

/// `{item}/updateDefinition`.
pub fn update_definition_url(ws_id: &str, item_id: &str) -> (r: String)
    ensures
        r@ == FABRIC_BASE@ + "/workspaces/"@ + ws_id@ + "/items/"@ + item_id@
            + "/updateDefinition"@,
{
    let mut u = item_url(ws_id, item_id);
    u.append("/updateDefinition");
    u
}

/// `{item}/jobs/instances?jobType=RunNotebook`: where a notebook run is started.
pub fn run_job_url(ws_id: &str, item_id: &str) -> (r: String)
    ensures
        r@ == FABRIC_BASE@ + "/workspaces/"@ + ws_id@ + "/items/"@ + item_id@
            + "/jobs/instances?jobType=RunNotebook"@,
{
    let mut u = item_url(ws_id, item_id);
    u.append("/jobs/instances?jobType=RunNotebook");
    u
}

/// `{item}/jobs/instances`: the job history.
pub fn job_instances_url(ws_id: &str, item_id: &str) -> (r: String)
    ensures
        r@ == FABRIC_BASE@ + "/workspaces/"@ + ws_id@ + "/items/"@ + item_id@
            + "/jobs/instances"@,
{
    let mut u = item_url(ws_id, item_id);
    u.append("/jobs/instances");
    u
}

/// `{poll_url}/result`: where a finished operation's result is fetched.
pub fn operation_result_url(poll_url: &str) -> (r: String)
    ensures
        r@ == poll_url@ + "/result"@,
{
    let mut u = String::from_str(poll_url);
    u.append("/result");
    u
}

// ---------------------------------------------------------------------------
// Resolving names
// ---------------------------------------------------------------------------

/// Index of the first name at or after `i` equal to `target` ignoring ASCII case,
/// or `names.len()`.
pub open spec fn first_ci_match(names: Seq<Seq<char>>, target: Seq<char>, i: int) -> int
    decreases names.len() - i,
{
    if i < 0 || i >= names.len() {
        names.len() as int
    } else if eq_ignore_ascii_case_spec(names[i], target) {
        i
    } else {
        first_ci_match(names, target, i + 1)
    }
}

/// The first match at or after `i` lies between `i` and the end, matches, and no
/// name before it does.
pub proof fn lemma_first_ci_match_bounds(names: Seq<Seq<char>>, target: Seq<char>, i: int)
    requires
        0 <= i <= names.len(),
    ensures
        i <= first_ci_match(names, target, i) <= names.len(),
        first_ci_match(names, target, i) < names.len() ==> eq_ignore_ascii_case_spec(
            names[first_ci_match(names, target, i)],
            target,
        ),
        forall|j: int|
            i <= j < first_ci_match(names, target, i) ==> !eq_ignore_ascii_case_spec(
                #[trigger] names[j],
                target,
            ),
    decreases names.len() - i,
{
    if i < names.len() && !eq_ignore_ascii_case_spec(names[i], target) {
        lemma_first_ci_match_bounds(names, target, i + 1);
    }
}

/// Display names of workspaces.
pub open spec fn workspace_names(ws: Seq<Workspace>) -> Seq<Seq<char>> {
    ws.map_values(|w: Workspace| w.display_name@)
}

/// Display names of items.
pub open spec fn item_names(items: Seq<FabricItem>) -> Seq<Seq<char>> {
    items.map_values(|i: FabricItem| i.display_name@)
}

/// A workspace reference with surrounding whitespace and every trailing
/// ".Workspace" removed.
pub open spec fn clean_workspace_spec(name_or_id: Seq<char>) -> Seq<char> {
    trim_end_matches_spec(trim_spec(name_or_id), ".Workspace"@)
}

/// How a workspace reference is resolved.
pub enum WorkspaceLookup {
    /// The reference is a GUID: it is the workspace id.
    Id(String),
    /// Search the listing (starting at `url`) for the display name `name`.
    Search { name: String, url: String },
}

/// First step of resolving a workspace: a GUID is taken as it is, anything else is
/// looked up by display name in the workspace listing.
pub fn resolve_workspace(name_or_id: &str) -> (r: WorkspaceLookup)
    ensures
        is_guid_spec(clean_workspace_spec(name_or_id@)) ==> (r matches WorkspaceLookup::Id(id)
            && id@ == clean_workspace_spec(name_or_id@)),
        !is_guid_spec(clean_workspace_spec(name_or_id@)) ==> (r matches WorkspaceLookup::Search {
            name,
            url,
        } && name@ == clean_workspace_spec(name_or_id@) && url@ == FABRIC_BASE@ + "/workspaces"@),
{
    proof {
        reveal_strlit(".Workspace");
    }
    let cleaned = trim_end_matches(trim(name_or_id), ".Workspace");
    if is_guid(cleaned) {
        WorkspaceLookup::Id(cleaned.to_owned())
    } else {
        WorkspaceLookup::Search { name: cleaned.to_owned(), url: workspaces_url() }
    }
}

/// What one page of a listing decides.
pub enum PageOutcome {
    /// The id of the first match.
    Found(String),
    /// No match here; fetch this page next.
    Next(String),
    /// No match, and no more pages.
    NotFound,
}

/// Looks for `name` (ignoring ASCII case) in one page of the workspace listing.
pub fn resolve_workspace_page(name: &str, page: &WorkspacePage) -> (r: PageOutcome)
    ensures
        ({
            let names = workspace_names(page.value@);
            let k = first_ci_match(names, name@, 0);
            if k < names.len() {
                r matches PageOutcome::Found(id) && id@ == page.value@[k].id@
            } else {
                match page.continuation_uri {
                    Some(u) => r matches PageOutcome::Next(n) && n@ == u@,
                    None => r is NotFound,
                }
            }
        }),
{
    let ghost names = workspace_names(page.value@);
    let n = page.value.len();
    let mut i: usize = 0;
    while i < n
        invariant
            n == page.value@.len(),
            names == workspace_names(page.value@),
            i <= n,
            first_ci_match(names, name@, 0) == first_ci_match(names, name@, i as int),
        decreases n - i,
    {
        if eq_ignore_ascii_case(page.value[i].display_name.as_str(), name) {
            assert(names[i as int] == page.value@[i as int].display_name@);
            return PageOutcome::Found(page.value[i].id.clone());
        }
        assert(names[i as int] == page.value@[i as int].display_name@);
        i = i + 1;
    }
    match &page.continuation_uri {
        Some(u) => PageOutcome::Next(u.clone()),
        None => PageOutcome::NotFound,
    }
}

/// Adds one page of an item listing to what was collected; returns the next page's URL.
pub fn list_items_page(items: &mut Vec<FabricItem>, page: ItemPage) -> (r: Option<String>)
    ensures
        final(items)@ == old(items)@ + page.value@,
        r == page.continuation_uri,
{
    let ItemPage { value, continuation_uri } = page;
    let mut value = value;
    items.append(&mut value);
    continuation_uri
}

/// Picks the first item whose display name equals `item_name` ignoring ASCII case.
pub fn resolve_item(items: Vec<FabricItem>, item_name: &str, item_type: &str) -> (r: Result<
    FabricItem,
    ClientError,
>)
    ensures
        ({
            let k = first_ci_match(item_names(items@), item_name@, 0);
            if k < items@.len() {
                r == Ok::<FabricItem, ClientError>(items@[k])
            } else {
                r matches Err(ClientError::ItemNotFound { item_type: t, item_name: n }) && t@
                    == item_type@ && n@ == item_name@
            }
        }),
{
    let ghost names = item_names(items@);
    let n = items.len();
    let mut i: usize = 0;
    while i < n
        invariant
            n == items@.len(),
            names == item_names(items@),
            i <= n,
            first_ci_match(names, item_name@, 0) == first_ci_match(names, item_name@, i as int),
        decreases n - i,
    {
        assert(names[i as int] == items@[i as int].display_name@);
        if eq_ignore_ascii_case(items[i].display_name.as_str(), item_name) {
            let mut items = items;
            return Ok(items.remove(i));
        }
        i = i + 1;
    }
    Err(ClientError::ItemNotFound { item_type: item_type.to_owned(), item_name: item_name.to_owned() })
}

// ---------------------------------------------------------------------------
// Responses
// ---------------------------------------------------------------------------

/// `StatusCode::is_success`: 200 to 299.
pub open spec fn is_success_spec(status: u16) -> bool {
    200 <= status <= 299
}

/// Whether a status code is a success.
pub fn is_success(status: u16) -> (r: bool)
    ensures
        r == is_success_spec(status),
{
    200 <= status && status <= 299
}

/// Seconds to wait as a `Retry-After` header says: its value when it parses as a
/// `u64`, else `DEFAULT_RETRY_SECS`.
pub open spec fn retry_wait_spec(retry_after: Option<Seq<char>>) -> u64 {
    match retry_after {
        Some(s) => match parse_u64_spec(s) {
            Some(v) => v,
            None => DEFAULT_RETRY_SECS,
        },
        None => DEFAULT_RETRY_SECS,
    }
}

/// Seconds to wait before the first poll.
pub fn retry_wait(retry_after: Option<&str>) -> (r: u64)
    ensures
        r == retry_wait_spec(opt_str_view(retry_after)),
{
    match retry_after {
        Some(s) => match parse_u64(s) {
            Some(v) => v,
            None => DEFAULT_RETRY_SECS,
        },
        None => DEFAULT_RETRY_SECS,
    }
}

/// What a `getDefinition` response leads to.
pub enum DefinitionResponse {
    /// 200: the body is the definition.
    Ready,
    /// 202: poll `url`, first after `wait` seconds.
    Poll { url: String, wait: u64 },
    /// 202 without a usable `Location` header.
    NoLocation,
    /// Any other status.
    Failed,
}

/// Decides on a `getDefinition` response from its status and its `Location` and
/// `Retry-After` headers (as visible-ASCII strings, when they are).
pub fn get_definition(status: u16, location: Option<&str>, retry_after: Option<&str>) -> (r:
    DefinitionResponse)
    ensures
        status == 200 ==> r is Ready,
        status == 202 ==> match location {
            Some(l) => r matches DefinitionResponse::Poll { url, wait } && url@ == l@ && wait
                == retry_wait_spec(opt_str_view(retry_after)),
            None => r is NoLocation,
        },
        status != 200 && status != 202 ==> r is Failed,
{
    if status == 200 {
        return DefinitionResponse::Ready;
    }
    if status == 202 {
        let wait = retry_wait(retry_after);
        return match location {
            Some(l) => DefinitionResponse::Poll { url: l.to_owned(), wait },
            None => DefinitionResponse::NoLocation,
        };
    }
    DefinitionResponse::Failed
}

/// What an `updateDefinition` response leads to.
pub enum UpdateResponse {
    /// Done (200, or 202 without a location to poll).
    Done,
    /// 202: poll `url` until it answers 200, first after `wait` seconds.
    Poll { url: String, wait: u64 },
    /// Any other status.
    Failed,
}

/// Decides on an `updateDefinition` response.
pub fn update_definition(status: u16, location: Option<&str>, retry_after: Option<&str>) -> (r:
    UpdateResponse)
    ensures
        status == 200 ==> r is Done,
        status == 202 ==> match location {
            Some(l) => r matches UpdateResponse::Poll { url, wait } && url@ == l@ && wait
                == retry_wait_spec(opt_str_view(retry_after)),
            None => r is Done,
        },
        status != 200 && status != 202 ==> r is Failed,
{
    if status == 200 {
        return UpdateResponse::Done;
    }
    if status == 202 {
        let wait = retry_wait(retry_after);
        return match location {
            Some(l) => UpdateResponse::Poll { url: l.to_owned(), wait },
            None => UpdateResponse::Done,
        };
    }
    UpdateResponse::Failed
}

/// The state of polling a long-running operation.
pub struct OperationPoll {
    pub url: String,
    pub wait: u64,
    pub polls: u64,
}

/// What one poll of a definition export answered.
pub enum DefinitionPollStep {
    /// Fetch the definition from this URL.
    Fetch(String),
    /// The body itself is the definition.
    UseBody,
    /// The operation failed with this error value.
    OperationFailed(Json),
    /// Still running: poll again.
    Retry,
    /// An unexpected status code.
    Error,
}

/// What one poll of an update answered.
pub enum CompletionStep {
    Done,
    Retry,
    Error,
}

/// The `status` member of an operation's state, or "".
pub open spec fn operation_status(body: JsonView) -> Seq<char> {
    match as_str_spec(get_spec(body, "status"@)) {
        Some(s) => s,
        None => seq![],
    }
}

/// The decision on one poll of a definition export.
pub open spec fn definition_poll_spec(poll_url: Seq<char>, status: u16, body: JsonView) -> (
    DefinitionPollKind,
    Seq<char>,
) {
    if status == 200 {
        if operation_status(body) == "Succeeded"@ {
            (DefinitionPollKind::Fetch, poll_url + "/result"@)
        } else if operation_status(body) == "Failed"@ {
            (DefinitionPollKind::OperationFailed, seq![])
        } else if as_str_spec(get_spec(body, "resourceLocation"@)) is Some {
            (DefinitionPollKind::Fetch, as_str_spec(get_spec(body, "resourceLocation"@))->0)
        } else if get_spec(body, "definition"@) is Some {
            (DefinitionPollKind::UseBody, seq![])
        } else {
            (DefinitionPollKind::Retry, seq![])
        }
    } else if status == 202 {
        (DefinitionPollKind::Retry, seq![])
    } else {
        (DefinitionPollKind::Error, seq![])
    }
}

/// The kinds of `DefinitionPollStep`.
pub enum DefinitionPollKind {
    Fetch,
    UseBody,
    OperationFailed,
    Retry,
    Error,
}

/// The kind of a step.
pub open spec fn step_kind(s: DefinitionPollStep) -> DefinitionPollKind {
    match s {
        DefinitionPollStep::Fetch(_) => DefinitionPollKind::Fetch,
        DefinitionPollStep::UseBody => DefinitionPollKind::UseBody,
        DefinitionPollStep::OperationFailed(_) => DefinitionPollKind::OperationFailed,
        DefinitionPollStep::Retry => DefinitionPollKind::Retry,
        DefinitionPollStep::Error => DefinitionPollKind::Error,
    }
}

impl OperationPoll {
    /// Starts polling `url`, first after `wait` seconds.
    pub fn new(url: String, wait: u64) -> (r: OperationPoll)
        ensures
            r.url == url,
            r.wait == wait,
            r.polls == 0,
    {
        OperationPoll { url, wait, polls: 0 }
    }

    /// Before each poll: the seconds to wait, or `None` once `MAX_OPERATION_POLLS`
    /// polls were made (the operation timed out). Counts the poll.
    pub fn begin_poll(&mut self) -> (r: Option<u64>)
        ensures
            old(self).polls < MAX_OPERATION_POLLS ==> r == Some(old(self).wait)
                && final(self).polls == old(self).polls + 1,
            old(self).polls >= MAX_OPERATION_POLLS ==> r is None
                && final(self).polls == old(self).polls,
            final(self).url == old(self).url,
            final(self).wait == old(self).wait,
    {
        if self.polls < MAX_OPERATION_POLLS {
            self.polls = self.polls + 1;
            Some(self.wait)
        } else {
            None
        }
    }

    /// Decides on one poll of a definition export: 200 carries the operation state
    /// (`body`); an operation that has not completed, and 202, mean poll again
    /// (later polls wait `DEFAULT_RETRY_SECS`); any other status is an error.
    pub fn definition_step(&mut self, status: u16, body: &Json) -> (r: DefinitionPollStep)
        ensures
            step_kind(r) == definition_poll_spec(old(self).url@, status, body@).0,
            r matches DefinitionPollStep::Fetch(u) ==> u@ == definition_poll_spec(
                old(self).url@,
                status,
                body@,
            ).1,
            r matches DefinitionPollStep::OperationFailed(e) ==> e@ == (match get_spec(
                body@,
                "error"@,
            ) {
                Some(v) => v,
                None => JsonView::Null,
            }),
            final(self).url == old(self).url,
            final(self).polls == old(self).polls,
            final(self).wait == (if r is Retry {
                DEFAULT_RETRY_SECS
            } else {
                old(self).wait
            }),
    {
        if status == 200 {
            let op_status: &str = match body.get("status") {
                Some(v) => match v.as_str() {
                    Some(s) => s,
                    None => "",
                },
                None => "",
            };
            proof {
                reveal_strlit("");
            }
            assert(op_status@ == operation_status(body@));
            if crate::json_ops::str_eq(op_status, "Succeeded") {
                assert(definition_poll_spec(self.url@, status, body@).0 == DefinitionPollKind::Fetch);
                return DefinitionPollStep::Fetch(operation_result_url(self.url.as_str()));
            }
            if crate::json_ops::str_eq(op_status, "Failed") {
                let e = match body.get("error") {
                    Some(v) => v.copy(),
                    None => Json::Null,
                };
                return DefinitionPollStep::OperationFailed(e);
            }
            if let Some(v) = body.get("resourceLocation") {
                if let Some(loc) = v.as_str() {
                    return DefinitionPollStep::Fetch(loc.to_owned());
                }
            }
            if body.get("definition").is_some() {
                return DefinitionPollStep::UseBody;
            }
            self.wait = DEFAULT_RETRY_SECS;
            return DefinitionPollStep::Retry;
        }
        if status == 202 {
            self.wait = DEFAULT_RETRY_SECS;
            return DefinitionPollStep::Retry;
        }
        DefinitionPollStep::Error
    }

    /// Decides on one poll of an update: 200 is done, 202 is still running (later
    /// polls wait `DEFAULT_RETRY_SECS`), anything else failed.
    pub fn completion_step(&mut self, status: u16) -> (r: CompletionStep)
        ensures
            status == 200 ==> r is Done,
            status == 202 ==> r is Retry,
            status != 200 && status != 202 ==> r is Error,
            final(self).url == old(self).url,
            final(self).polls == old(self).polls,
            final(self).wait == (if status == 202 {
                DEFAULT_RETRY_SECS
            } else {
                old(self).wait
            }),
    {
        if status == 200 {
            return CompletionStep::Done;
        }
        if status == 202 {
            self.wait = DEFAULT_RETRY_SECS;
            return CompletionStep::Retry;
        }
        CompletionStep::Error
    }
}

/// Decides on the response that starts a notebook run: 202 gives the URL to poll
/// (its `Location` header, or "unknown"); anything else is a failure (`None`).
pub fn run_job(status: u16, location: Option<&str>) -> (r: Option<String>)
    ensures
        status == 202 ==> (r matches Some(u) && u@ == (match location {
            Some(l) => l@,
            None => "unknown"@,
        })),
        status != 202 ==> r is None,
{
    if status == 202 {
        Some(
            match location {
                Some(l) => l.to_owned(),
                None => "unknown".to_owned(),
            },
        )
    } else {
        None
    }
}

/// Unicode lower-casing (`str::to_lowercase`).
pub uninterp spec fn unicode_lowercase(s: Seq<char>) -> Seq<char>;

/// `str::to_lowercase`: full Unicode lower-casing, whose tables this library does
/// not restate; its result is named `unicode_lowercase`.
#[verifier::external_body]
fn to_lowercase(s: &str) -> (r: String)
    ensures
        r@ == unicode_lowercase(s@),
{
    s.to_lowercase()
}

/// A lower-cased job status that ends polling: "completed", "failed" or "cancelled".
pub open spec fn is_terminal_lowercase_spec(l: Seq<char>) -> bool {
    l == "completed"@ || l == "failed"@ || l == "cancelled"@
}

/// A job status that ends polling: "completed", "failed" or "cancelled" after
/// Unicode lower-casing.
pub open spec fn is_terminal_status(s: Seq<char>) -> bool {
    is_terminal_lowercase_spec(unicode_lowercase(s))
}

/// Whether an already lower-cased job status ends polling.
pub fn is_terminal_lowercase(l: &str) -> (r: bool)
    ensures
        r == is_terminal_lowercase_spec(l@),
{
    crate::json_ops::str_eq(l, "completed") || crate::json_ops::str_eq(l, "failed")
        || crate::json_ops::str_eq(l, "cancelled")
}

/// What one poll of a job answered.
pub enum JobPollStep {
    /// The job reached a terminal state.
    Finished,
    /// Keep polling.
    Pending,
    /// An unexpected status.
    Failed,
}

/// Decides on one poll of a running job: status 200 carries the job, which ends the
/// polling when its status is terminal; 202 means keep polling; anything else fails.
pub fn poll_job(status: u16, job: Option<&JobInstance>) -> (r: JobPollStep)
    ensures
        status == 200 ==> (match job {
            Some(j) => match j.status {
                Some(s) => if is_terminal_status(s@) {
                    r is Finished
                } else {
                    r is Pending
                },
                None => r is Pending,
            },
            None => r is Pending,
        }),
        status == 202 ==> r is Pending,
        status != 200 && status != 202 ==> r is Failed,
{
    if status == 200 {
        if let Some(j) = job {
            if let Some(s) = &j.status {
                let l = to_lowercase(s.as_str());
                if is_terminal_lowercase(l.as_str()) {
                    return JobPollStep::Finished;
                }
            }
        }
        JobPollStep::Pending
    } else if status == 202 {
        JobPollStep::Pending
    } else {
        JobPollStep::Failed
    }
}

/// The job has run longer than allowed.
pub fn job_timed_out(elapsed_secs: u64, timeout_secs: u64) -> (r: bool)
    ensures
        r == (elapsed_secs > timeout_secs),
{
    elapsed_secs > timeout_secs
}

/// The capacity a workspace is assigned to: its `capacityId` string member.
pub fn get_workspace_capacity(workspace: &Json) -> (r: Option<String>)
    ensures
        match as_str_spec(get_spec(workspace@, "capacityId"@)) {
            Some(s) => r matches Some(c) && c@ == s,
            None => r is None,
        },
{
    match workspace.get("capacityId") {
        Some(v) => match v.as_str() {
            Some(s) => Some(s.to_owned()),
            None => None,
        },
        None => None,
    }
}

/// The host used when the service does not name one.
pub const DEFAULT_WABI_HOST: &'static str =
    "https://wabi-west-europe-e-primary-redirect.analysis.windows.net";

/// The WABI host from the `home-cluster-uri` header, without trailing '/'; the
/// default host when the header is absent.
pub fn get_wabi_host(home_cluster_uri: Option<&str>) -> (r: String)
    ensures
        match home_cluster_uri {
            Some(h) => r@ == trim_end_matches_spec(h@, "/"@),
            None => r@ == DEFAULT_WABI_HOST@,
        },
{
    match home_cluster_uri {
        Some(h) => {
            proof {
                reveal_strlit("/");
            }
            trim_end_matches(h, "/").to_owned()
        },
        None => DEFAULT_WABI_HOST.to_owned(),
    }
}

// ---------------------------------------------------------------------------
// Laws
// ---------------------------------------------------------------------------

/// A parsed reference is its workspace, '/', and its item; the workspace part holds
/// no '/' and neither part is empty.
pub proof fn law_parse_ref_splits(reference: Seq<char>)
    ensures
        parse_ref_spec(reference) matches Some((w, i)) ==> {
            &&& reference == w + seq!['/'] + i
            &&& !w.contains('/')
            &&& w.len() > 0
            &&& i.len() > 0
        },
{
    if parse_ref_spec(reference) is Some {
        lemma_find_from_bounds(reference, '/', 0);
        let k = find_from(reference, '/', 0);
        let w = reference.subrange(0, k);
        let i = reference.subrange(k + 1, reference.len() as int);
        assert(reference =~= w + seq!['/'] + i);
        assert forall|j: int| 0 <= j < w.len() implies w[j] != '/' by {}
    }
}

/// Joining a workspace name without '/' and a non-empty item name with '/' gives a
/// reference that parses back into the two.
pub proof fn law_parse_ref_round_trip(w: Seq<char>, i: Seq<char>)
    requires
        w.len() > 0,
        i.len() > 0,
        !w.contains('/'),
    ensures
        parse_ref_spec(w + seq!['/'] + i) == Some((w, i)),
{
    let r = w + seq!['/'] + i;
    assert forall|j: int| 0 <= j < w.len() implies r[j] != '/' by {
        if r[j] == '/' {
            assert(w[j] == '/');
        }
    }
    lemma_find_from_is(r, '/', 0, w.len() as int);
    assert(r.subrange(0, w.len() as int) =~= w);
    assert(r.subrange(w.len() as int + 1, r.len() as int) =~= i);
}

/// Resolving a name finds the same entry for every spelling that differs only in
/// ASCII case.
pub proof fn law_name_lookup_ignores_ascii_case(names: Seq<Seq<char>>, a: Seq<char>, b: Seq<char>)
    requires
        eq_ignore_ascii_case_spec(a, b),
    ensures
        first_ci_match(names, a, 0) == first_ci_match(names, b, 0),
{
    lemma_ci_match_from(names, a, b, 0);
}

proof fn lemma_ci_match_from(names: Seq<Seq<char>>, a: Seq<char>, b: Seq<char>, i: int)
    requires
        eq_ignore_ascii_case_spec(a, b),
        0 <= i <= names.len(),
    ensures
        first_ci_match(names, a, i) == first_ci_match(names, b, i),
    decreases names.len() - i,
{
    if i < names.len() {
        law_eq_ignore_ascii_case_is_equivalence(names[i], a, b);
        law_eq_ignore_ascii_case_is_equivalence(a, b, names[i]);
        law_eq_ignore_ascii_case_is_equivalence(names[i], b, a);
        lemma_ci_match_from(names, a, b, i + 1);
    }
}


/// A job ends polling exactly when its status, lower-cased, is "completed", "failed"
/// or "cancelled"; a job that has not started or is still in progress is polled
/// again.
pub proof fn law_job_polling_ends(status: Seq<char>)
    ensures
        is_terminal_status(status) <==> (unicode_lowercase(status) == "completed"@
            || unicode_lowercase(status) == "failed"@ || unicode_lowercase(status)
            == "cancelled"@),
        unicode_lowercase(status) == "notstarted"@ ==> !is_terminal_status(status),
        unicode_lowercase(status) == "inprogress"@ ==> !is_terminal_status(status),
        unicode_lowercase(status) == "running"@ ==> !is_terminal_status(status),
{
    reveal_strlit("completed");
    reveal_strlit("failed");
    reveal_strlit("cancelled");
    reveal_strlit("notstarted");
    reveal_strlit("inprogress");
    reveal_strlit("running");
    assert("notstarted"@[0] != "completed"@[0] && "notstarted"@[0] != "failed"@[0]
        && "notstarted"@[0] != "cancelled"@[0]);
    assert("inprogress"@[0] != "completed"@[0] && "inprogress"@[0] != "failed"@[0]
        && "inprogress"@[0] != "cancelled"@[0]);
    assert("running"@[0] != "completed"@[0] && "running"@[0] != "failed"@[0]
        && "running"@[0] != "cancelled"@[0]);
}

/// An already lower-cased status is terminal exactly when it is "completed", "failed"
/// or "cancelled".
pub proof fn law_terminal_lowercase_statuses(l: Seq<char>)
    ensures
        is_terminal_lowercase_spec(l) <==> (l == "completed"@ || l == "failed"@ || l
            == "cancelled"@),
        l == "notstarted"@ || l == "inprogress"@ ==> !is_terminal_lowercase_spec(l),
{
    reveal_strlit("completed");
    reveal_strlit("failed");
    reveal_strlit("cancelled");
    reveal_strlit("notstarted");
    reveal_strlit("inprogress");
    assert("notstarted"@[0] != "completed"@[0] && "notstarted"@[0] != "failed"@[0]
        && "notstarted"@[0] != "cancelled"@[0]);
    assert("inprogress"@[0] != "completed"@[0] && "inprogress"@[0] != "failed"@[0]
        && "inprogress"@[0] != "cancelled"@[0]);
}

} // verus!
