use fabric_nb::client::{
    get_definition, get_wabi_host, is_terminal_lowercase, get_workspace_capacity, item_url, job_timed_out,
    list_items_page, list_items_url, parse_ref, poll_job, resolve_item, resolve_workspace,
    resolve_workspace_page, retry_wait, run_job, update_definition, ClientError,
    CompletionStep, DefinitionPollStep, DefinitionResponse, FabricItem, ItemPage, JobInstance,
    JobPollStep, OperationPoll, PageOutcome, UpdateResponse, Workspace, WorkspaceLookup,
    WorkspacePage,
};
use fabric_nb::json::Json;

fn item(id: &str, name: &str) -> FabricItem {
    FabricItem {
        id: id.to_string(),
        display_name: name.to_string(),
        item_type: "Notebook".to_string(),
        description: None,
    }
}

fn obj(members: Vec<(&str, Json)>) -> Json {
    Json::Object(members.into_iter().map(|(k, v)| (k.to_string(), v)).collect())
}

fn s(x: &str) -> Json {
    Json::Str(x.to_string())
}

#[test]
fn parse_ref_splits_at_first_slash() {
    match parse_ref("My Workspace/ETL Pipeline") {
        Ok((w, i)) => {
            assert_eq!(w, "My Workspace");
            assert_eq!(i, "ETL Pipeline");
        }
        Err(_) => panic!("expected a reference"),
    }
    match parse_ref("a/b/c") {
        Ok((w, i)) => {
            assert_eq!(w, "a");
            assert_eq!(i, "b/c");
        }
        Err(_) => panic!("expected a reference"),
    }
}

#[test]
fn parse_ref_rejects_malformed() {
    for bad in ["noslash", "/item", "ws/", ""] {
        match parse_ref(bad) {
            Err(ClientError::InvalidReference(r)) => assert_eq!(r, bad),
            _ => panic!("expected an invalid reference for {bad:?}"),
        }
    }
}

#[test]
fn resolve_workspace_takes_guid_directly() {
    match resolve_workspace("  5feab05a-68a8-43af-a621-2571b5fcd3fd.Workspace ") {
        WorkspaceLookup::Id(id) => assert_eq!(id, "5feab05a-68a8-43af-a621-2571b5fcd3fd"),
        _ => panic!("expected a GUID"),
    }
    match resolve_workspace("Sales.Workspace") {
        WorkspaceLookup::Search { name, url } => {
            assert_eq!(name, "Sales");
            assert_eq!(url, "https://api.fabric.microsoft.com/v1/workspaces");
        }
        _ => panic!("expected a search"),
    }
}

#[test]
fn workspace_page_matches_ignoring_case() {
    let page = WorkspacePage {
        value: vec![
            Workspace { id: "1".into(), display_name: "Other".into() },
            Workspace { id: "2".into(), display_name: "SALES".into() },
            Workspace { id: "3".into(), display_name: "sales".into() },
        ],
        continuation_uri: Some("next".into()),
    };
    assert!(matches!(resolve_workspace_page("Sales", &page), PageOutcome::Found(id) if id == "2"));
    assert!(matches!(resolve_workspace_page("None", &page), PageOutcome::Next(u) if u == "next"));
    let last = WorkspacePage { value: vec![], continuation_uri: None };
    assert!(matches!(resolve_workspace_page("Sales", &last), PageOutcome::NotFound));
}

#[test]
fn list_items_collects_pages() {
    let mut items = vec![item("a", "A")];
    let next = list_items_page(&mut items, ItemPage { value: vec![item("b", "B")], continuation_uri: None });
    assert!(next.is_none());
    assert_eq!(items.len(), 2);
    assert_eq!(items[1].id, "b");
    assert_eq!(
        list_items_url("ws", "Notebook"),
        "https://api.fabric.microsoft.com/v1/workspaces/ws/items?type=Notebook"
    );
}

#[test]
fn resolve_item_finds_first_case_insensitive_match() {
    let items = vec![item("1", "ETL"), item("2", "etl"), item("3", "Other")];
    assert_eq!(resolve_item(items, "Etl", "Notebook").ok().map(|i| i.id), Some("1".to_string()));
    match resolve_item(vec![item("1", "ETL")], "Missing", "Lakehouse") {
        Err(ClientError::ItemNotFound { item_type, item_name }) => {
            assert_eq!(item_type, "Lakehouse");
            assert_eq!(item_name, "Missing");
        }
        _ => panic!("expected not found"),
    }
}

#[test]
fn definition_responses() {
    assert!(matches!(get_definition(200, None, None), DefinitionResponse::Ready));
    assert!(matches!(
        get_definition(202, Some("https://op"), Some("7")),
        DefinitionResponse::Poll { url, wait } if url == "https://op" && wait == 7
    ));
    assert!(matches!(
        get_definition(202, Some("https://op"), Some("soon")),
        DefinitionResponse::Poll { wait, .. } if wait == 2
    ));
    assert!(matches!(get_definition(202, None, Some("7")), DefinitionResponse::NoLocation));
    assert!(matches!(get_definition(404, Some("x"), None), DefinitionResponse::Failed));
    assert_eq!(retry_wait(None), 2);
}

#[test]
fn update_responses() {
    assert!(matches!(update_definition(200, None, None), UpdateResponse::Done));
    assert!(matches!(update_definition(202, None, None), UpdateResponse::Done));
    assert!(matches!(
        update_definition(202, Some("loc"), None),
        UpdateResponse::Poll { url, wait } if url == "loc" && wait == 2
    ));
    assert!(matches!(update_definition(400, None, None), UpdateResponse::Failed));
}

#[test]
fn operation_poll_steps() {
    let mut p = OperationPoll::new("https://op/1".to_string(), 5);
    assert_eq!(p.begin_poll(), Some(5));
    let body = obj(vec![("status", s("Succeeded"))]);
    assert!(matches!(p.definition_step(200, &body), DefinitionPollStep::Fetch(u) if u == "https://op/1/result"));
    let failed = obj(vec![("status", s("Failed")), ("error", s("boom"))]);
    assert!(matches!(p.definition_step(200, &failed), DefinitionPollStep::OperationFailed(Json::Str(e)) if e == "boom"));
    let failed_no_error = obj(vec![("status", s("Failed"))]);
    assert!(matches!(p.definition_step(200, &failed_no_error), DefinitionPollStep::OperationFailed(Json::Null)));
    let located = obj(vec![("status", s("Running")), ("resourceLocation", s("https://res"))]);
    assert!(matches!(p.definition_step(200, &located), DefinitionPollStep::Fetch(u) if u == "https://res"));
    let inline = obj(vec![("definition", obj(vec![]))]);
    assert!(matches!(p.definition_step(200, &inline), DefinitionPollStep::UseBody));
    assert!(matches!(p.definition_step(202, &Json::Null), DefinitionPollStep::Retry));
    assert_eq!(p.wait, 2);
    assert!(matches!(p.definition_step(500, &Json::Null), DefinitionPollStep::Error));
}

#[test]
fn operation_poll_gives_up_after_sixty_polls() {
    let mut p = OperationPoll::new("u".to_string(), 1);
    for _ in 0..60 {
        assert!(p.begin_poll().is_some());
        assert!(matches!(p.completion_step(202), CompletionStep::Retry));
    }
    assert_eq!(p.begin_poll(), None);
    let mut q = OperationPoll::new("u".to_string(), 1);
    assert!(matches!(q.completion_step(200), CompletionStep::Done));
    assert!(matches!(q.completion_step(409), CompletionStep::Error));
}

#[test]
fn run_job_reads_location() {
    assert_eq!(run_job(202, Some("https://job/1")), Some("https://job/1".to_string()));
    assert_eq!(run_job(202, None), Some("unknown".to_string()));
    assert_eq!(run_job(200, Some("x")), None);
}

#[test]
fn poll_job_ends_on_terminal_status() {
    let job = |st: &str| JobInstance {
        id: None,
        status: Some(st.to_string()),
        start_time_utc: None,
        end_time_utc: None,
        failure_reason: None,
    };
    assert!(matches!(poll_job(200, Some(&job("Completed"))), JobPollStep::Finished));
    assert!(matches!(poll_job(200, Some(&job("FAILED"))), JobPollStep::Finished));
    assert!(matches!(poll_job(200, Some(&job("Cancelled"))), JobPollStep::Finished));
    assert!(matches!(poll_job(200, Some(&job("InProgress"))), JobPollStep::Pending));
    assert!(matches!(poll_job(202, None), JobPollStep::Pending));
    assert!(matches!(poll_job(500, None), JobPollStep::Failed));
    assert!(job_timed_out(11, 10));
    assert!(!job_timed_out(10, 10));
}

#[test]
fn capacity_and_wabi_host() {
    let ws = obj(vec![("capacityId", s("cap-1"))]);
    assert_eq!(get_workspace_capacity(&ws), Some("cap-1".to_string()));
    assert_eq!(get_workspace_capacity(&obj(vec![])), None);
    assert_eq!(get_wabi_host(Some("https://wabi.example/")), "https://wabi.example");
    assert_eq!(
        get_wabi_host(None),
        "https://wabi-west-europe-e-primary-redirect.analysis.windows.net"
    );
    assert_eq!(item_url("w", "i"), "https://api.fabric.microsoft.com/v1/workspaces/w/items/i");
}

#[test]
fn running_operation_is_polled_again() {
    let mut p = OperationPoll::new("https://op/2".to_string(), 7);
    assert_eq!(p.begin_poll(), Some(7));
    let running = obj(vec![("status", s("Running"))]);
    assert!(matches!(p.definition_step(200, &running), DefinitionPollStep::Retry));
    assert_eq!(p.wait, 2);
    assert_eq!(p.begin_poll(), Some(2));
    assert!(matches!(p.definition_step(200, &obj(vec![])), DefinitionPollStep::Retry));
    let done = obj(vec![("status", s("Succeeded"))]);
    assert!(matches!(p.definition_step(200, &done), DefinitionPollStep::Fetch(u) if u == "https://op/2/result"));
    assert_eq!(p.polls, 2);
}

#[test]
fn terminal_statuses_after_lower_casing() {
    assert!(is_terminal_lowercase("completed"));
    assert!(is_terminal_lowercase("failed"));
    assert!(is_terminal_lowercase("cancelled"));
    assert!(!is_terminal_lowercase("Completed"));
    assert!(!is_terminal_lowercase("inprogress"));
}
