//! Running code in a Livy session on a lakehouse: the URLs, request bodies and the
//! decisions taken on each answer while the session starts and a statement runs.
use vstd::prelude::*;
use vstd::string::*;
use crate::cells::{cell_source_spec, cell_source_string, cells, cells_spec};
use crate::client::{parse_ref, parse_ref_spec, ClientError, FABRIC_BASE};
use crate::json::{as_str_spec, as_u64_spec, get_spec, lookup_spec, number_text, Json, JsonView};
use crate::json_ops::{no_members, object, push_member, str_eq};
use crate::text::{
    decimal, prefix_at_most, u64_to_string, prefix_len, trim, trim_end_matches, trim_end_matches_spec, trim_spec,
};

verus! {

broadcast use crate::json::group_json_view;

/// The Livy API version the client speaks.
pub const LIVY_API_VERSION: &'static str = "2023-12-01";

/// Most checks of a session's or statement's state before giving up.
pub const MAX_STATE_CHECKS: u64 = 120;

/// Errors of `nb exec`.
pub enum ExecError {
    /// The lakehouse reference is not `workspace/lakehouse`.
    Reference(ClientError),
    /// There is no code to run.
    NoCode,
    /// Neither code nor a cell index was given.
    NoCodeOrCell,
    /// The notebook has no `cells` array.
    NoCells,
    /// The notebook has no cell at this index.
    CellOutOfRange(usize),
}

impl ExecError {
    /// The message shown for this error (a bad reference is explained by the
    /// expected format; its own message is the cause).
    pub fn message(&self) -> (r: String)
        ensures
            match self {
                ExecError::Reference(_) => r@ == EXEC_FORMAT_HINT@,
                ExecError::NoCode => r@ == NO_CODE_MESSAGE@,
                ExecError::NoCodeOrCell => r@ == NO_CODE_OR_CELL_MESSAGE@,
                ExecError::NoCells => r@ == "No cells array"@,
                ExecError::CellOutOfRange(i) => r@ == "Cell index "@ + decimal(*i as nat)
                    + " out of range"@,
            },
    {
        match self {
            ExecError::Reference(_) => String::from_str(EXEC_FORMAT_HINT),
            ExecError::NoCode => String::from_str(NO_CODE_MESSAGE),
            ExecError::NoCodeOrCell => String::from_str(NO_CODE_OR_CELL_MESSAGE),
            ExecError::NoCells => String::from_str("No cells array"),
            ExecError::CellOutOfRange(i) => {
                let mut m = String::from_str("Cell index ");
                m.append(u64_to_string(*i as u64).as_str());
                m.append(" out of range");
                m
            },
        }
    }
}

/// How the target of `nb exec code` is written.
pub const EXEC_FORMAT_HINT: &'static str =
    "Expected format: \"Workspace/Lakehouse\" or \"Workspace.Workspace/LH.Lakehouse\"\n  nb exec code \"MyWS/MyLH.Lakehouse\" \"print('hello')\"";

/// Shown when there is no code to run.
pub const NO_CODE_MESSAGE: &'static str =
    "No code to execute.\n  nb exec code \"Workspace/Lakehouse\" \"print('hello')\"";

/// Shown by `nb exec cell` when there is nothing to run.
pub const NO_CODE_OR_CELL_MESSAGE: &'static str =
    "Provide --code or a cell index.\n  nb exec cell \"Workspace/Notebook\" 0";

/// Where the code of `nb exec cell` comes from.
pub enum CodeSource {
    /// The code given on the command line.
    Given(String),
    /// The source of the notebook cell at this index.
    Cell(usize),
}

/// Chooses the code to run: given code wins over a cell index; with neither there is
/// nothing to run.
pub fn exec_code_source(code: Option<&str>, cell_index: Option<usize>) -> (r: Result<
    CodeSource,
    ExecError,
>)
    ensures
        match code {
            Some(c) => r matches Ok(CodeSource::Given(g)) && g@ == c@,
            None => match cell_index {
                Some(i) => r matches Ok(CodeSource::Cell(j)) && j == i,
                None => r matches Err(ExecError::NoCodeOrCell),
            },
        },
{
    match code {
        Some(c) => Ok(CodeSource::Given(c.to_owned())),
        None => match cell_index {
            Some(i) => Ok(CodeSource::Cell(i)),
            None => Err(ExecError::NoCodeOrCell),
        },
    }
}

/// The code of the notebook cell at `index`: its source as one string.
pub fn exec_cell_code(ipynb: &Json, index: usize) -> (r: Result<String, ExecError>)
    ensures
        match cells_spec(ipynb@) {
            Some(cs) => if index < cs.len() {
                r matches Ok(s) && s@ == cell_source_spec(cs[index as int])
            } else {
                r matches Err(ExecError::CellOutOfRange(i)) && i == index
            },
            None => r matches Err(ExecError::NoCells),
        },
{
    match cells(ipynb) {
        Ok(cs) => if index < cs.len() {
            Ok(cell_source_string(&cs[index]))
        } else {
            Err(ExecError::CellOutOfRange(index))
        },
        Err(_) => Err(ExecError::NoCells),
    }
}

/// The target of `nb exec code`: workspace name and lakehouse name without a
/// trailing ".Lakehouse".
pub open spec fn exec_target_spec(reference: Seq<char>) -> Option<(Seq<char>, Seq<char>)> {
    match parse_ref_spec(reference) {
        Some((w, l)) => Some((w, trim_end_matches_spec(l, ".Lakehouse"@))),
        None => None,
    }
}

/// Parses the target of `nb exec code`.
pub fn exec_target(reference: &str) -> (r: Result<(&str, &str), ExecError>)
    ensures
        match exec_target_spec(reference@) {
            Some((w, l)) => r matches Ok((a, b)) && a@ == w && b@ == l,
            None => r matches Err(ExecError::Reference(ClientError::InvalidReference(s)))
                && s@ == reference@,
        },
{
    match parse_ref(reference) {
        Ok((ws, lh)) => {
            proof {
                reveal_strlit(".Lakehouse");
            }
            Ok((ws, trim_end_matches(lh, ".Lakehouse")))
        },
        Err(e) => Err(ExecError::Reference(e)),
    }
}

/// Code that is empty after trimming whitespace.
pub fn is_blank(code: &str) -> (r: bool)
    ensures
        r == (trim_spec(code@).len() == 0),
{
    trim(code).unicode_len() == 0
}

/// The name of the session the client creates: "nb-cli-" and the lakehouse or
/// notebook name.
pub fn session_name(name: &str) -> (r: String)
    ensures
        r@ == "nb-cli-"@ + name@,
{
    String::from_str("nb-cli-").concat(name)
}

/// The Livy session kind for a kernel: "pyspark" for the Spark kernel, else
/// "python".
pub fn session_kind(kernel: &str) -> (r: &'static str)
    ensures
        r@ == (if kernel@ == "synapse_pyspark"@ {
            "pyspark"@
        } else {
            "python"@
        }),
{
    if str_eq(kernel, "synapse_pyspark") {
        "pyspark"
    } else {
        "python"
    }
}

/// `FABRIC_BASE/workspaces/{ws}/lakehouses/{lh}/livyApi/versions/{v}/sessions`.
pub fn sessions_url(ws_id: &str, lh_id: &str) -> (r: String)
    ensures
        r@ == FABRIC_BASE@ + "/workspaces/"@ + ws_id@ + "/lakehouses/"@ + lh_id@
            + "/livyApi/versions/"@ + LIVY_API_VERSION@ + "/sessions"@,
{
    let mut u = String::from_str(FABRIC_BASE);
    u.append("/workspaces/");
    u.append(ws_id);
    u.append("/lakehouses/");
    u.append(lh_id);
    u.append("/livyApi/versions/");
    u.append(LIVY_API_VERSION);
    u.append("/sessions");
    u
}

/// `{sessions}/{session}`: where a session is checked and deleted.
pub fn session_url(ws_id: &str, lh_id: &str, session_id: &str) -> (r: String)
    ensures
        r@ == FABRIC_BASE@ + "/workspaces/"@ + ws_id@ + "/lakehouses/"@ + lh_id@
            + "/livyApi/versions/"@ + LIVY_API_VERSION@ + "/sessions"@ + "/"@ + session_id@,
{
    let mut u = sessions_url(ws_id, lh_id);
    u.append("/");
    u.append(session_id);
    u
}

/// `{session}/statements`: where code is submitted.
pub fn statements_url(ws_id: &str, lh_id: &str, session_id: &str) -> (r: String)
    ensures
        r@ == FABRIC_BASE@ + "/workspaces/"@ + ws_id@ + "/lakehouses/"@ + lh_id@
            + "/livyApi/versions/"@ + LIVY_API_VERSION@ + "/sessions"@ + "/"@ + session_id@
            + "/statements"@,
{
    let mut u = session_url(ws_id, lh_id, session_id);
    u.append("/statements");
    u
}

/// `{statements}/{statement}`: where a statement's result is polled.
pub fn statement_url(ws_id: &str, lh_id: &str, session_id: &str, statement_id: u64) -> (r: String)
    ensures
        r@ == FABRIC_BASE@ + "/workspaces/"@ + ws_id@ + "/lakehouses/"@ + lh_id@
            + "/livyApi/versions/"@ + LIVY_API_VERSION@ + "/sessions"@ + "/"@ + session_id@
            + "/statements"@ + "/"@ + decimal(statement_id as nat),
{
    let mut u = statements_url(ws_id, lh_id, session_id);
    u.append("/");
    let id = u64_to_string(statement_id);
    u.append(id.as_str());
    u
}

/// `FABRIC_BASE/workspaces/{ws}/notebooks/{nb}/livySessions`: a notebook's sessions.
pub fn livy_sessions_url(ws_id: &str, notebook_id: &str) -> (r: String)
    ensures
        r@ == FABRIC_BASE@ + "/workspaces/"@ + ws_id@ + "/notebooks/"@ + notebook_id@
            + "/livySessions"@,
{
    let mut u = String::from_str(FABRIC_BASE);
    u.append("/workspaces/");
    u.append(ws_id);
    u.append("/notebooks/");
    u.append(notebook_id);
    u.append("/livySessions");
    u
}

/// The request that creates a session.
pub fn session_body(kind: &str, name: &str) -> (r: Json)
    ensures
        r@ == JsonView::Object(
            seq![("kind"@, JsonView::Str(kind@))].push(("name"@, JsonView::Str(name@))),
        ),
{
    let mut f = no_members();
    push_member(&mut f, "kind", Json::Str(kind.to_owned()));
    push_member(&mut f, "name", Json::Str(name.to_owned()));
    object(f)
}

/// The request that submits a statement.
pub fn statement_body(code: &str, kind: &str) -> (r: Json)
    ensures
        r@ == JsonView::Object(
            seq![("code"@, JsonView::Str(code@))].push(("kind"@, JsonView::Str(kind@))),
        ),
{
    let mut f = no_members();
    push_member(&mut f, "code", Json::Str(code.to_owned()));
    push_member(&mut f, "kind", Json::Str(kind.to_owned()));
    object(f)
}

/// The id of a created session: its `id` member as a string (a number is printed),
/// when that is not empty.
pub open spec fn session_id_spec(session: JsonView) -> Option<Seq<char>> {
    let text = match get_spec(session, "id"@) {
        Some(JsonView::Str(s)) => Some(s),
        Some(JsonView::Number(n)) => Some(number_text(n)),
        Some(_) => Some(seq![]),
        None => None,
    };
    match text {
        Some(t) => if t.len() > 0 {
            Some(t)
        } else {
            None
        },
        None => None,
    }
}

/// Extracts the id of a created session.
pub fn session_id(session: &Json) -> (r: Option<String>)
    ensures
        match session_id_spec(session@) {
            Some(s) => r matches Some(x) && x@ == s,
            None => r is None,
        },
{
    let text = match session.get("id") {
        Some(Json::Str(s)) => Some(s.clone()),
        Some(Json::Number(n)) => Some(n.to_text()),
        Some(_) => Some(String::new()),
        None => None,
    };
    match text {
        Some(t) => if t.as_str().unicode_len() > 0 {
            Some(t)
        } else {
            None
        },
        None => None,
    }
}

/// The short form of a session id that the summary shows: its longest prefix of at
/// most 8 bytes that ends between characters.
pub fn short_id(session_id: &str) -> (r: &str)
    ensures
        r.spec_bytes() == session_id.spec_bytes().subrange(
            0,
            prefix_len(session_id.spec_bytes(), 8),
        ),
        r@ == vstd::utf8::decode_utf8(
            session_id.spec_bytes().subrange(0, prefix_len(session_id.spec_bytes(), 8)),
        ),
{
    prefix_at_most(session_id, 8)
}

/// The id of a submitted statement: its `id` member as an unsigned integer.
pub fn statement_id(statement: &Json) -> (r: Option<u64>)
    ensures
        r == as_u64_spec(get_spec(statement@, "id"@)),
{
    match statement.get("id") {
        Some(v) => v.as_u64(),
        None => None,
    }
}

/// The `state` member of a session or statement, or "unknown".
pub open spec fn state_spec(v: JsonView) -> Seq<char> {
    match as_str_spec(get_spec(v, "state"@)) {
        Some(s) => s,
        None => "unknown"@,
    }
}

fn state_of(v: &Json) -> (r: &str)
    ensures
        r@ == state_spec(v@),
{
    match v.get("state") {
        Some(s) => match s.as_str() {
            Some(x) => x,
            None => "unknown",
        },
        None => "unknown",
    }
}

/// What a session's state means while waiting for it.
pub enum SessionWait {
    /// "idle": ready for code.
    Ready,
    /// "dead", "error" or "killed": it will not become ready.
    Dead(String),
    /// Anything else: still starting.
    Starting,
}

/// Decides on a session's state while waiting for it to become idle.
pub fn session_wait(session: &Json) -> (r: SessionWait)
    ensures
        state_spec(session@) == "idle"@ ==> r is Ready,
        (state_spec(session@) == "dead"@ || state_spec(session@) == "error"@ || state_spec(
            session@,
        ) == "killed"@) ==> (r matches SessionWait::Dead(s) && s@ == state_spec(session@)),
        !(state_spec(session@) == "idle"@ || state_spec(session@) == "dead"@ || state_spec(
            session@,
        ) == "error"@ || state_spec(session@) == "killed"@) ==> r is Starting,
{
    let state = state_of(session);
    proof {
        reveal_strlit("idle");
        reveal_strlit("dead");
        reveal_strlit("error");
        reveal_strlit("killed");
    }
    assert("dead"@[0] != "idle"@[0]);
    if str_eq(state, "idle") {
        SessionWait::Ready
    } else if str_eq(state, "dead") || str_eq(state, "error") || str_eq(state, "killed") {
        SessionWait::Dead(state.to_owned())
    } else {
        SessionWait::Starting
    }
}

/// A statement state that ends polling: "available", "error", "cancelled" or
/// "cancelling".
pub open spec fn statement_done_spec(state: Seq<char>) -> bool {
    state == "available"@ || state == "error"@ || state == "cancelled"@ || state
        == "cancelling"@
}

/// Decides whether polling a statement is over.
pub fn statement_done(statement: &Json) -> (r: bool)
    ensures
        r == statement_done_spec(state_spec(statement@)),
{
    let state = state_of(statement);
    str_eq(state, "available") || str_eq(state, "error") || str_eq(state, "cancelled")
        || str_eq(state, "cancelling")
}

/// How a finished statement turned out.
pub enum StatementOutcome {
    /// The code ran; its plain-text output, if any.
    Succeeded(Option<String>),
    /// The code failed: error name, error value, and the traceback lines.
    Failed { ename: String, evalue: String, traceback: Vec<String> },
}

/// A string found at a path, or "".
pub open spec fn str_at_or_empty(v: JsonView, path: Seq<Seq<char>>) -> Seq<char> {
    match as_str_spec(lookup_spec(v, path)) {
        Some(s) => s,
        None => seq![],
    }
}

/// The strings among array items, in order (other items skipped).
pub open spec fn string_items(items: Seq<JsonView>) -> Seq<Seq<char>>
    decreases items.len(),
{
    if items.len() == 0 {
        seq![]
    } else {
        let rest = string_items(items.drop_last());
        match items.last() {
            JsonView::Str(s) => rest.push(s),
            _ => rest,
        }
    }
}

/// The string lines of a traceback (other items skipped).
pub open spec fn traceback_spec(v: JsonView) -> Seq<Seq<char>> {
    match lookup_spec(v, seq!["output"@, "traceback"@]) {
        Some(JsonView::Array(items)) => string_items(items),
        _ => seq![],
    }
}

fn str_at<'a>(v: &'a Json, path: &[&str]) -> (r: Option<&'a str>)
    ensures
        as_str_spec(lookup_spec(v@, path@.map_values(|k: &str| k@))) matches Some(s) ==> (r matches Some(x) && x@ == s),
        as_str_spec(lookup_spec(v@, path@.map_values(|k: &str| k@))) is None ==> r is None,
{
    match v.lookup(path) {
        Some(j) => j.as_str(),
        None => None,
    }
}

/// Reads the outcome of a finished statement: `output.status` "ok" means success
/// with the `output.data["text/plain"]` text; anything else is a failure described
/// by `output.ename`, `output.evalue` and `output.traceback`.
pub fn statement_outcome(statement: &Json) -> (r: StatementOutcome)
    ensures
        str_at_or_empty(statement@, seq!["output"@, "status"@]) == "ok"@ ==> (r matches StatementOutcome::Succeeded(
            text,
        ) && match as_str_spec(lookup_spec(statement@, seq!["output"@, "data"@, "text/plain"@])) {
            Some(t) => text matches Some(x) && x@ == t,
            None => text is None,
        }),
        str_at_or_empty(statement@, seq!["output"@, "status"@]) != "ok"@ ==> (r matches StatementOutcome::Failed {
            ename,
            evalue,
            traceback,
        } && ename@ == str_at_or_empty(statement@, seq!["output"@, "ename"@]) && evalue@
            == str_at_or_empty(statement@, seq!["output"@, "evalue"@])
            && traceback@.map_values(|s: String| s@) == traceback_spec(statement@)),
{
    let p_status = ["output", "status"];
    let p_text = ["output", "data", "text/plain"];
    let p_ename = ["output", "ename"];
    let p_evalue = ["output", "evalue"];
    let p_tb = ["output", "traceback"];
    proof {
        reveal_strlit("");
        reveal_strlit("ok");
        assert(p_status@.map_values(|k: &str| k@) =~= seq!["output"@, "status"@]);
        assert(p_text@.map_values(|k: &str| k@) =~= seq!["output"@, "data"@, "text/plain"@]);
        assert(p_ename@.map_values(|k: &str| k@) =~= seq!["output"@, "ename"@]);
        assert(p_evalue@.map_values(|k: &str| k@) =~= seq!["output"@, "evalue"@]);
        assert(p_tb@.map_values(|k: &str| k@) =~= seq!["output"@, "traceback"@]);
    }
    let status = match str_at(statement, &p_status) {
        Some(s) => s,
        None => "",
    };
    assert("ok"@.len() == 2);
    assert(status@ == str_at_or_empty(statement@, seq!["output"@, "status"@]));
    if str_eq(status, "ok") {
        return StatementOutcome::Succeeded(
            match str_at(statement, &p_text) {
                Some(t) => Some(t.to_owned()),
                None => None,
            },
        );
    }
    let ename = match str_at(statement, &p_ename) {
        Some(s) => s.to_owned(),
        None => String::new(),
    };
    let evalue = match str_at(statement, &p_evalue) {
        Some(s) => s.to_owned(),
        None => String::new(),
    };
    let mut traceback: Vec<String> = Vec::new();
    match statement.lookup(&p_tb) {
        Some(Json::Array(items)) => {
            let ghost iv = crate::json::items_view(items@);
            let mut i: usize = 0;
            assert(traceback@.map_values(|s: String| s@) =~= string_items(iv.subrange(0, 0)));
            while i < items.len()
                invariant
                    i <= items@.len(),
                    iv == crate::json::items_view(items@),
                    traceback@.map_values(|s: String| s@) == string_items(iv.subrange(0, i as int)),
                decreases items@.len() - i,
            {
                let ghost before = traceback@;
                proof {
                    assert(iv.subrange(0, i + 1).drop_last() =~= iv.subrange(0, i as int));
                    assert(iv[i as int] == items@[i as int]@);
                }
                if let Some(s) = items[i].as_str() {
                    traceback.push(s.to_owned());
                    assert(traceback@.map_values(|s: String| s@) =~= before.map_values(
                        |s: String| s@,
                    ).push(s@));
                }
                i = i + 1;
            }
            assert(iv.subrange(0, items@.len() as int) =~= iv);
        },
        _ => {},
    }
    StatementOutcome::Failed { ename, evalue, traceback }
}


// ---------------------------------------------------------------------------
// Laws
// ---------------------------------------------------------------------------

/// Polling a statement ends exactly on the states "available", "error", "cancelled"
/// and "cancelling": a statement that is "waiting" or "running", or that reports no
/// state, is polled again.
pub proof fn law_statement_polling_ends(statement: JsonView)
    ensures
        statement_done_spec(state_spec(statement)) <==> (state_spec(statement) == "available"@
            || state_spec(statement) == "error"@ || state_spec(statement) == "cancelled"@
            || state_spec(statement) == "cancelling"@),
        get_spec(statement, "state"@) == Some(JsonView::Str("waiting"@)) ==> !statement_done_spec(
            state_spec(statement),
        ),
        get_spec(statement, "state"@) == Some(JsonView::Str("running"@)) ==> !statement_done_spec(
            state_spec(statement),
        ),
        get_spec(statement, "state"@) is None ==> !statement_done_spec(state_spec(statement)),
{
    reveal_strlit("available");
    reveal_strlit("error");
    reveal_strlit("cancelled");
    reveal_strlit("cancelling");
    reveal_strlit("waiting");
    reveal_strlit("running");
    reveal_strlit("unknown");
    assert("waiting"@ != "available"@ && "waiting"@ != "error"@ && "waiting"@ != "cancelled"@
        && "waiting"@ != "cancelling"@) by {
        assert("waiting"@[0] != "available"@[0] && "waiting"@[0] != "error"@[0]
            && "waiting"@[0] != "cancelled"@[0] && "waiting"@[0] != "cancelling"@[0]);
    }
    assert("running"@ != "available"@ && "running"@ != "error"@ && "running"@ != "cancelled"@
        && "running"@ != "cancelling"@) by {
        assert("running"@[0] != "available"@[0] && "running"@[0] != "error"@[0]
            && "running"@[0] != "cancelled"@[0] && "running"@[0] != "cancelling"@[0]);
    }
    assert("unknown"@ != "available"@ && "unknown"@ != "error"@ && "unknown"@ != "cancelled"@
        && "unknown"@ != "cancelling"@) by {
        assert("unknown"@[0] != "available"@[0] && "unknown"@[0] != "error"@[0]
            && "unknown"@[0] != "cancelled"@[0] && "unknown"@[0] != "cancelling"@[0]);
    }
}

} // verus!
