use fabric_nb::json::{Json, JsonNumber};
use fabric_nb::schedule::{
    created_schedule_id, schedule_create_body, schedule_created, schedule_row, schedule_rows, schedule_update_body, schedule_url,
    ScheduleError,
};

fn obj(members: Vec<(&str, Json)>) -> Json {
    Json::Object(members.into_iter().map(|(k, v)| (k.to_string(), v)).collect())
}

fn s(x: &str) -> Json {
    Json::Str(x.to_string())
}

fn member<'a>(j: &'a Json, key: &str) -> Option<&'a Json> {
    j.get(key)
}

#[test]
fn create_body_has_configuration() {
    let b = schedule_create_body("Cron", 15, "2026-01-01T00:00:00", Some("2026-12-31T00:00:00"), "UTC", true);
    assert!(matches!(member(&b, "enabled"), Some(Json::Bool(true))));
    let c = member(&b, "configuration").unwrap();
    assert!(matches!(member(c, "interval"), Some(Json::Number(JsonNumber::UInt(15)))));
    assert!(matches!(member(c, "endDateTime"), Some(Json::Str(e)) if e == "2026-12-31T00:00:00"));
    assert!(matches!(member(c, "localTimeZoneId"), Some(Json::Str(z)) if z == "UTC"));
    let no_end = schedule_create_body("Daily", 2, "s", None, "UTC", false);
    assert!(member(member(&no_end, "configuration").unwrap(), "endDateTime").is_none());
}

#[test]
fn update_body_merges_overrides() {
    let current = obj(vec![
        ("id", s("sched-1")),
        ("enabled", Json::Bool(false)),
        ("owner", s("someone")),
        (
            "configuration",
            obj(vec![("type", s("Cron")), ("interval", Json::Number(JsonNumber::UInt(10))), ("startDateTime", s("t0"))]),
        ),
    ]);
    let b = schedule_update_body(&current, None, Some(30), None).ok().unwrap();
    match &b {
        Json::Object(f) => assert_eq!(f.len(), 2),
        _ => panic!("object expected"),
    }
    assert!(matches!(member(&b, "enabled"), Some(Json::Bool(false))));
    let c = member(&b, "configuration").unwrap();
    assert!(matches!(member(c, "interval"), Some(Json::Number(JsonNumber::UInt(30)))));
    assert!(matches!(member(c, "type"), Some(Json::Str(t)) if t == "Cron"));
    assert!(matches!(member(c, "startDateTime"), Some(Json::Str(t)) if t == "t0"));
    let b2 = schedule_update_body(&current, Some(true), None, Some("Daily")).ok().unwrap();
    assert!(matches!(member(&b2, "enabled"), Some(Json::Bool(true))));
    assert!(matches!(member(member(&b2, "configuration").unwrap(), "type"), Some(Json::Str(t)) if t == "Daily"));
    let no_enabled = obj(vec![("configuration", obj(vec![]))]);
    let b3 = schedule_update_body(&no_enabled, None, None, None).ok().unwrap();
    assert!(matches!(member(&b3, "enabled"), Some(Json::Bool(true))));
    assert!(matches!(
        schedule_update_body(&obj(vec![]), None, None, None),
        Err(ScheduleError::MissingConfiguration)
    ));
}

#[test]
fn schedule_rows_fill_defaults() {
    let listing = obj(vec![(
        "value",
        Json::Array(vec![
            obj(vec![
                ("id", s("a")),
                ("enabled", Json::Bool(true)),
                ("configuration", obj(vec![("type", s("Cron")), ("interval", Json::Number(JsonNumber::UInt(5))), ("startDateTime", s("t"))])),
            ]),
            obj(vec![]),
        ]),
    )]);
    let rows = schedule_rows(&listing);
    assert_eq!(rows.len(), 2);
    assert_eq!(rows[0].id, "a");
    assert!(rows[0].enabled);
    assert_eq!(rows[0].interval, "5");
    assert_eq!(rows[1].id, "-");
    assert!(!rows[1].enabled);
    assert_eq!(rows[1].schedule_type, "-");
    assert_eq!(rows[1].interval, "-");
    assert_eq!(rows[1].start, "-");
    assert!(schedule_rows(&obj(vec![])).is_empty());
    assert_eq!(schedule_row(&obj(vec![("id", s("z"))])).id, "z");
    assert_eq!(
        schedule_url("w", "n", "s"),
        "https://api.fabric.microsoft.com/v1/workspaces/w/items/n/jobs/RunNotebook/schedules/s"
    );
}

#[test]
fn schedule_creation_answer() {
    assert!(schedule_created(201));
    assert!(schedule_created(200));
    assert!(!schedule_created(400));
    assert_eq!(created_schedule_id(&obj(vec![("id", s("sch-1"))])), "sch-1");
    assert_eq!(created_schedule_id(&obj(vec![("id", Json::Bool(true))])), "unknown");
    assert_eq!(created_schedule_id(&Json::Null), "unknown");
}
