use fabric_nb::json::{Json, JsonNumber};
use fabric_nb::session::{
    exec_cell_code, exec_code_source, exec_target, is_blank, session_body, session_id, session_kind, session_name, session_url,
    session_wait, short_id, statement_body, statement_done, statement_id, statement_outcome,
    statement_url, CodeSource, ExecError, SessionWait, StatementOutcome,
};

fn obj(members: Vec<(&str, Json)>) -> Json {
    Json::Object(members.into_iter().map(|(k, v)| (k.to_string(), v)).collect())
}

fn s(x: &str) -> Json {
    Json::Str(x.to_string())
}

#[test]
fn exec_target_strips_lakehouse_suffix() {
    match exec_target("MyWS/MyLH.Lakehouse") {
        Ok((w, l)) => {
            assert_eq!(w, "MyWS");
            assert_eq!(l, "MyLH");
        }
        Err(_) => panic!("expected a target"),
    }
    assert!(matches!(exec_target("MyLH"), Err(ExecError::Reference(_))));
}

#[test]
fn blank_code_and_names() {
    assert!(is_blank(" \n\t "));
    assert!(!is_blank(" print(1) "));
    assert_eq!(session_name("MyLH"), "nb-cli-MyLH");
    assert_eq!(session_kind("synapse_pyspark"), "pyspark");
    assert_eq!(session_kind("jupyter"), "python");
}

#[test]
fn session_urls() {
    assert_eq!(
        session_url("w", "l", "s1"),
        "https://api.fabric.microsoft.com/v1/workspaces/w/lakehouses/l/livyApi/versions/2023-12-01/sessions/s1"
    );
    assert_eq!(
        statement_url("w", "l", "s1", 42),
        "https://api.fabric.microsoft.com/v1/workspaces/w/lakehouses/l/livyApi/versions/2023-12-01/sessions/s1/statements/42"
    );
}

#[test]
fn session_ids() {
    assert_eq!(session_id(&obj(vec![("id", s("abcdef0123"))])), Some("abcdef0123".to_string()));
    assert_eq!(session_id(&obj(vec![("id", Json::Number(JsonNumber::UInt(17)))])), Some("17".to_string()));
    assert_eq!(session_id(&obj(vec![("id", Json::Number(JsonNumber::Int(-3)))])), Some("-3".to_string()));
    assert_eq!(session_id(&obj(vec![("id", s(""))])), None);
    assert_eq!(session_id(&obj(vec![("id", Json::Bool(true))])), None);
    assert_eq!(session_id(&obj(vec![])), None);
    assert_eq!(short_id("abcdef0123"), "abcdef01");
    assert_eq!(short_id("42"), "42");
    assert_eq!(short_id(""), "");
    assert_eq!(short_id("abcdefgé"), "abcdefg");
    assert_eq!(short_id("ab✓cdefg"), "ab✓cde");
    assert_eq!(statement_id(&obj(vec![("id", Json::Number(JsonNumber::UInt(3)))])), Some(3));
    assert_eq!(statement_id(&obj(vec![("id", s("3"))])), None);
}

#[test]
fn session_states() {
    assert!(matches!(session_wait(&obj(vec![("state", s("idle"))])), SessionWait::Ready));
    assert!(matches!(session_wait(&obj(vec![("state", s("dead"))])), SessionWait::Dead(st) if st == "dead"));
    assert!(matches!(session_wait(&obj(vec![("state", s("killed"))])), SessionWait::Dead(_)));
    assert!(matches!(session_wait(&obj(vec![("state", s("starting"))])), SessionWait::Starting));
    assert!(matches!(session_wait(&obj(vec![])), SessionWait::Starting));
    assert!(statement_done(&obj(vec![("state", s("available"))])));
    assert!(statement_done(&obj(vec![("state", s("cancelling"))])));
    assert!(!statement_done(&obj(vec![("state", s("running"))])));
}

#[test]
fn statement_outcomes() {
    let ok = obj(vec![(
        "output",
        obj(vec![("status", s("ok")), ("data", obj(vec![("text/plain", s("42"))]))]),
    )]);
    assert!(matches!(statement_outcome(&ok), StatementOutcome::Succeeded(Some(t)) if t == "42"));
    let failed = obj(vec![(
        "output",
        obj(vec![
            ("status", s("error")),
            ("ename", s("NameError")),
            ("evalue", s("x undefined")),
            ("traceback", Json::Array(vec![s("line 1"), Json::Null, s("line 2")])),
        ]),
    )]);
    match statement_outcome(&failed) {
        StatementOutcome::Failed { ename, evalue, traceback } => {
            assert_eq!(ename, "NameError");
            assert_eq!(evalue, "x undefined");
            assert_eq!(traceback, vec!["line 1".to_string(), "line 2".to_string()]);
        }
        _ => panic!("failure expected"),
    }
    assert!(matches!(statement_outcome(&obj(vec![])), StatementOutcome::Failed { .. }));
}

#[test]
fn session_and_statement_bodies() {
    match session_body("pyspark", "nb-cli-x") {
        Json::Object(f) => {
            assert_eq!(f.len(), 2);
            assert_eq!(f[0].0, "kind");
            assert!(matches!(&f[1].1, Json::Str(n) if n == "nb-cli-x"));
        }
        _ => panic!("object expected"),
    }
    match statement_body("print(1)", "python") {
        Json::Object(f) => assert!(matches!(&f[0].1, Json::Str(c) if c == "print(1)")),
        _ => panic!("object expected"),
    }
}

#[test]
fn exec_code_is_chosen() {
    assert!(matches!(exec_code_source(Some("print(1)"), Some(3)), Ok(CodeSource::Given(c)) if c == "print(1)"));
    assert!(matches!(exec_code_source(None, Some(3)), Ok(CodeSource::Cell(3))));
    let e = exec_code_source(None, None).err().unwrap();
    assert!(matches!(e, ExecError::NoCodeOrCell));
    assert_eq!(e.message(), "Provide --code or a cell index.\n  nb exec cell \"Workspace/Notebook\" 0");
    let cell = obj(vec![("source", Json::Array(vec![s("a\n"), s("b")]))]);
    let doc = obj(vec![("cells", Json::Array(vec![cell]))]);
    assert_eq!(exec_cell_code(&doc, 0).ok().unwrap(), "a\nb");
    let e = exec_cell_code(&doc, 1).err().unwrap();
    assert_eq!(e.message(), "Cell index 1 out of range");
    let e = exec_cell_code(&obj(vec![]), 0).err().unwrap();
    assert_eq!(e.message(), "No cells array");
}
