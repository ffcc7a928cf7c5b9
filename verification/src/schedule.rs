//! Notebook run schedules: URLs, request bodies, and the rows of a listing.
use vstd::prelude::*;
use vstd::string::*;
use crate::client::{is_success, is_success_spec, item_url, FABRIC_BASE};
use crate::json::{
    as_array_spec, as_bool_spec, as_str_spec, as_u64_spec, get_spec, is_settable, items_view,
    law_get_after_set, law_set_keeps_other_members, lemma_key_pos_is, opt_str_view, set_spec, Json, JsonNumber,
    JsonView, NumberView,
};
use crate::json_ops::{no_members, object, push_member};
use crate::text::{decimal, u64_to_string};

verus! {

broadcast use crate::json::group_json_view;

/// Errors of `nb schedule update`.
pub enum ScheduleError {
    /// The current schedule has no `configuration` member.
    MissingConfiguration,
}

impl ScheduleError {
    /// The message shown for this error.
    pub fn message(&self) -> (r: String)
        ensures
            r@ == "Schedule response missing 'configuration' object"@,
    {
        String::from_str("Schedule response missing 'configuration' object")
    }
}

/// `{item}/jobs/RunNotebook/schedules`.
pub fn schedules_url(ws_id: &str, item_id: &str) -> (r: String)
    ensures
        r@ == FABRIC_BASE@ + "/workspaces/"@ + ws_id@ + "/items/"@ + item_id@
            + "/jobs/RunNotebook/schedules"@,
{
    let mut u = item_url(ws_id, item_id);
    u.append("/jobs/RunNotebook/schedules");
    u
}

/// `{schedules}/{id}`.
pub fn schedule_url(ws_id: &str, item_id: &str, schedule_id: &str) -> (r: String)
    ensures
        r@ == FABRIC_BASE@ + "/workspaces/"@ + ws_id@ + "/items/"@ + item_id@
            + "/jobs/RunNotebook/schedules"@ + "/"@ + schedule_id@,
{
    let mut u = schedules_url(ws_id, item_id);
    u.append("/");
    u.append(schedule_id);
    u
}

/// The `configuration` of a new schedule; `endDateTime` only when an end is given.
pub open spec fn create_config_spec(
    start: Seq<char>,
    timezone: Seq<char>,
    schedule_type: Seq<char>,
    interval: u64,
    end: Option<Seq<char>>,
) -> JsonView {
    let base = seq![("startDateTime"@, JsonView::Str(start))].push(
        ("localTimeZoneId"@, JsonView::Str(timezone)),
    ).push(("type"@, JsonView::Str(schedule_type))).push(
        ("interval"@, JsonView::Number(NumberView::UInt(interval))),
    );
    match end {
        Some(e) => JsonView::Object(base.push(("endDateTime"@, JsonView::Str(e)))),
        None => JsonView::Object(base),
    }
}

/// The request that creates a schedule.
pub fn schedule_create_body(
    schedule_type: &str,
    interval: u64,
    start: &str,
    end: Option<&str>,
    timezone: &str,
    enabled: bool,
) -> (r: Json)
    ensures
        r@ == JsonView::Object(
            seq![("enabled"@, JsonView::Bool(enabled))].push(
                (
                    "configuration"@,
                    create_config_spec(start@, timezone@, schedule_type@, interval, opt_str_view(end)),
                ),
            ),
        ),
{
    let mut config = no_members();
    push_member(&mut config, "startDateTime", Json::Str(start.to_owned()));
    push_member(&mut config, "localTimeZoneId", Json::Str(timezone.to_owned()));
    push_member(&mut config, "type", Json::Str(schedule_type.to_owned()));
    push_member(&mut config, "interval", Json::Number(JsonNumber::UInt(interval)));
    if let Some(e) = end {
        push_member(&mut config, "endDateTime", Json::Str(e.to_owned()));
    }
    let mut body = no_members();
    push_member(&mut body, "enabled", Json::Bool(enabled));
    push_member(&mut body, "configuration", object(config));
    object(body)
}

/// A create request succeeded: 201, or any other success status.
pub fn schedule_created(status: u16) -> (r: bool)
    ensures
        r == (status == 201 || is_success_spec(status)),
{
    status == 201 || is_success(status)
}

/// The id of a created schedule from the service's answer: its `id` string member,
/// or "unknown".
pub fn created_schedule_id(answer: &Json) -> (r: String)
    ensures
        r@ == (match as_str_spec(get_spec(answer@, "id"@)) {
            Some(s) => s,
            None => "unknown"@,
        }),
{
    match answer.get("id") {
        Some(v) => match v.as_str() {
            Some(s) => s.to_owned(),
            None => "unknown".to_owned(),
        },
        None => "unknown".to_owned(),
    }
}

/// The configuration with the given overrides applied (interval first, then type).
pub open spec fn updated_config_spec(
    config: JsonView,
    interval: Option<u64>,
    schedule_type: Option<Seq<char>>,
) -> JsonView {
    let c1 = match interval {
        Some(i) => set_spec(config, "interval"@, JsonView::Number(NumberView::UInt(i))),
        None => config,
    };
    match schedule_type {
        Some(t) => set_spec(c1, "type"@, JsonView::Str(t)),
        None => c1,
    }
}

/// The body of a schedule update: only `enabled` (the override, else the current
/// value, else `true`) and the full current `configuration` with the overrides.
pub open spec fn update_body_spec(
    current: JsonView,
    enabled: Option<bool>,
    interval: Option<u64>,
    schedule_type: Option<Seq<char>>,
) -> Option<JsonView> {
    match get_spec(current, "configuration"@) {
        None => None,
        Some(config) => {
            let en = match enabled {
                Some(e) => JsonView::Bool(e),
                None => match get_spec(current, "enabled"@) {
                    Some(v) => v,
                    None => JsonView::Bool(true),
                },
            };
            Some(
                JsonView::Object(
                    seq![("enabled"@, en)].push(
                        ("configuration"@, updated_config_spec(config, interval, schedule_type)),
                    ),
                ),
            )
        },
    }
}

/// Builds the body of a schedule update from the current schedule: the service
/// wants the full configuration even for partial updates, and rejects fields that
/// it manages, so only `enabled` and `configuration` are sent.
pub fn schedule_update_body(
    current: &Json,
    enabled: Option<bool>,
    interval: Option<u64>,
    schedule_type: Option<&str>,
) -> (r: Result<Json, ScheduleError>)
    requires
        match get_spec(current@, "configuration"@) {
            Some(c) => (interval is Some || schedule_type is Some) ==> is_settable(c),
            None => true,
        },
    ensures
        match update_body_spec(current@, enabled, interval, opt_str_view(schedule_type)) {
            Some(b) => r matches Ok(j) && j@ == b,
            None => r matches Err(ScheduleError::MissingConfiguration),
        },
{
    let mut config = match current.get("configuration") {
        Some(c) => c.copy(),
        None => {
            return Err(ScheduleError::MissingConfiguration);
        },
    };
    let en = match enabled {
        Some(e) => Json::Bool(e),
        None => match current.get("enabled") {
            Some(v) => v.copy(),
            None => Json::Bool(true),
        },
    };
    if let Some(i) = interval {
        config.set("interval", Json::Number(JsonNumber::UInt(i)));
    }
    if let Some(t) = schedule_type {
        config.set("type", Json::Str(t.to_owned()));
    }
    let mut body = no_members();
    push_member(&mut body, "enabled", en);
    push_member(&mut body, "configuration", config);
    Ok(object(body))
}

/// One row of `nb schedule list`.
pub struct ScheduleRow {
    pub id: String,
    pub enabled: bool,
    pub schedule_type: String,
    pub interval: String,
    pub start: String,
}

/// A string member, or "-".
pub open spec fn str_or_dash(v: Option<JsonView>) -> Seq<char> {
    match as_str_spec(v) {
        Some(s) => s,
        None => "-"@,
    }
}

/// The `configuration` of a schedule, or `null`.
pub open spec fn config_of(s: JsonView) -> JsonView {
    match get_spec(s, "configuration"@) {
        Some(c) => c,
        None => JsonView::Null,
    }
}

/// The row shown for a schedule.
pub open spec fn row_spec(s: JsonView, row: ScheduleRow) -> bool {
    &&& row.id@ == str_or_dash(get_spec(s, "id"@))
    &&& row.enabled == (match as_bool_spec(get_spec(s, "enabled"@)) {
        Some(b) => b,
        None => false,
    })
    &&& row.schedule_type@ == str_or_dash(get_spec(config_of(s), "type"@))
    &&& row.interval@ == (match as_u64_spec(get_spec(config_of(s), "interval"@)) {
        Some(i) => decimal(i as nat),
        None => "-"@,
    })
    &&& row.start@ == str_or_dash(get_spec(config_of(s), "startDateTime"@))
}

fn str_or_dash_exec(v: Option<&Json>) -> (r: String)
    ensures
        r@ == str_or_dash(crate::json::opt_view(v)),
{
    match v {
        Some(j) => match j.as_str() {
            Some(s) => s.to_owned(),
            None => "-".to_owned(),
        },
        None => "-".to_owned(),
    }
}

/// The row shown for one schedule.
pub fn schedule_row(s: &Json) -> (r: ScheduleRow)
    ensures
        row_spec(s@, r),
{
    let id = str_or_dash_exec(s.get("id"));
    let enabled = match s.get("enabled") {
        Some(v) => match v.as_bool() {
            Some(b) => b,
            None => false,
        },
        None => false,
    };
    let null = Json::Null;
    let config: &Json = match s.get("configuration") {
        Some(c) => c,
        None => &null,
    };
    let schedule_type = str_or_dash_exec(config.get("type"));
    let interval = match config.get("interval") {
        Some(v) => match v.as_u64() {
            Some(i) => u64_to_string(i),
            None => "-".to_owned(),
        },
        None => "-".to_owned(),
    };
    let start = str_or_dash_exec(config.get("startDateTime"));
    ScheduleRow { id, enabled, schedule_type, interval, start }
}

/// The schedules in a listing's `value` array (none when it is missing).
pub open spec fn schedules_spec(body: JsonView) -> Seq<JsonView> {
    match as_array_spec(get_spec(body, "value"@)) {
        Some(a) => a,
        None => seq![],
    }
}

/// The rows of `nb schedule list`, one per schedule in the listing.
pub fn schedule_rows(body: &Json) -> (r: Vec<ScheduleRow>)
    ensures
        r@.len() == schedules_spec(body@).len(),
        forall|i: int| 0 <= i < r@.len() ==> row_spec(schedules_spec(body@)[i], #[trigger] r@[i]),
{
    let mut rows: Vec<ScheduleRow> = Vec::new();
    match body.get("value") {
        Some(v) => match v.as_array() {
            Some(items) => {
                let mut i: usize = 0;
                while i < items.len()
                    invariant
                        i <= items@.len(),
                        schedules_spec(body@) == items_view(items@),
                        rows@.len() == i,
                        forall|k: int|
                            0 <= k < i ==> row_spec(items_view(items@)[k], #[trigger] rows@[k]),
                    decreases items@.len() - i,
                {
                    rows.push(schedule_row(&items[i]));
                    i = i + 1;
                }
            },
            None => {},
        },
        None => {},
    }
    rows
}

/// A schedule update changes exactly the overridden settings: a new interval and a
/// new type read back as given, and every other configuration member is kept.
pub proof fn law_update_changes_only_overrides(
    config: JsonView,
    interval: Option<u64>,
    schedule_type: Option<Seq<char>>,
    key: Seq<char>,
)
    requires
        (interval is Some || schedule_type is Some) ==> is_settable(config),
    ensures
        interval matches Some(i) ==> get_spec(
            updated_config_spec(config, interval, schedule_type),
            "interval"@,
        ) == Some(JsonView::Number(NumberView::UInt(i))),
        schedule_type matches Some(t) ==> get_spec(
            updated_config_spec(config, interval, schedule_type),
            "type"@,
        ) == Some(JsonView::Str(t)),
        key != "interval"@ && key != "type"@ ==> get_spec(
            updated_config_spec(config, interval, schedule_type),
            key,
        ) == get_spec(config, key),
{
    reveal_strlit("interval");
    reveal_strlit("type");
    assert("interval"@[0] != "type"@[0]);
    let c1 = match interval {
        Some(i) => set_spec(config, "interval"@, JsonView::Number(NumberView::UInt(i))),
        None => config,
    };
    if let Some(i) = interval {
        law_get_after_set(config, "interval"@, JsonView::Number(NumberView::UInt(i)));
        if key != "interval"@ {
            law_set_keeps_other_members(config, "interval"@, key, JsonView::Number(NumberView::UInt(i)));
        }
    }
    if let Some(t) = schedule_type {
        assert(is_settable(c1));
        law_get_after_set(c1, "type"@, JsonView::Str(t));
        law_set_keeps_other_members(c1, "type"@, "interval"@, JsonView::Str(t));
        if key != "type"@ {
            law_set_keeps_other_members(c1, "type"@, key, JsonView::Str(t));
        }
    }
}


/// The `enabled` sent by a schedule update is the override when one is given, and
/// otherwise the schedule's current `enabled` (or `true` when it has none); the
/// update is built exactly when the current schedule has a configuration, which is
/// sent with the overrides applied.
pub proof fn law_update_body_enabled(
    current: JsonView,
    enabled: Option<bool>,
    interval: Option<u64>,
    schedule_type: Option<Seq<char>>,
)
    ensures
        update_body_spec(current, enabled, interval, schedule_type) is Some <==> get_spec(
            current,
            "configuration"@,
        ) is Some,
        update_body_spec(current, enabled, interval, schedule_type) matches Some(b) ==> {
            &&& enabled matches Some(e) ==> get_spec(b, "enabled"@) == Some(JsonView::Bool(e))
            &&& enabled is None ==> get_spec(b, "enabled"@) == Some(
                match get_spec(current, "enabled"@) {
                    Some(v) => v,
                    None => JsonView::Bool(true),
                },
            )
            &&& get_spec(b, "configuration"@) == Some(
                updated_config_spec(get_spec(current, "configuration"@)->0, interval, schedule_type),
            )
        },
{
    reveal_strlit("enabled");
    reveal_strlit("configuration");
    if let Some(b) = update_body_spec(current, enabled, interval, schedule_type) {
        let f = b->Object_0;
        assert("enabled"@.len() != "configuration"@.len());
        lemma_key_pos_is(f, "enabled"@, 0, 0);
        lemma_key_pos_is(f, "configuration"@, 0, 1);
    }
}

} // verus!
