use fabric_nb::cells::{
    add_cell, cell_at, cell_source_string, cell_type, cells, default_lakehouse,
    detect_language_group, insert_cell, kernel_name, new_cell, notebook_bytes, remove_cell,
    select_part, set_cell_source, source_lines, truncate_line, CellsError,
};
use fabric_nb::client::{DefinitionBody, DefinitionPart, ItemDefinition};
use fabric_nb::notebook::encode_payload;
use fabric_nb::json::Json;

fn obj(members: Vec<(&str, Json)>) -> Json {
    Json::Object(members.into_iter().map(|(k, v)| (k.to_string(), v)).collect())
}

fn s(x: &str) -> Json {
    Json::Str(x.to_string())
}

fn arr(items: Vec<Json>) -> Json {
    Json::Array(items)
}

fn code_cell(src: &str) -> Json {
    obj(vec![("cell_type", s("code")), ("source", arr(vec![s(src)]))])
}

fn doc(cs: Vec<Json>) -> Json {
    obj(vec![("nbformat", Json::Null), ("cells", arr(cs))])
}

fn sources(d: &Json) -> Vec<String> {
    cells(d).ok().unwrap().iter().map(cell_source_string).collect()
}

fn part(path: &str, payload: &str) -> DefinitionPart {
    DefinitionPart { path: path.into(), payload: payload.into(), payload_type: "InlineBase64".into() }
}

#[test]
fn notebook_part_is_selected() {
    let parts = vec![part(".platform", "a"), part("notebook-content.py", "b"), part("x.ipynb", "c")];
    assert_eq!(select_part(&parts).unwrap().payload, "b");
    let parts = vec![part(".platform", "a"), part("x.ipynb", "c")];
    assert_eq!(select_part(&parts).unwrap().payload, "c");
    let parts = vec![part(".platform", "a")];
    assert_eq!(select_part(&parts).unwrap().payload, "a");
    assert!(select_part(&vec![]).is_none());
}

#[test]
fn notebook_bytes_decodes_payload() {
    let def = ItemDefinition {
        definition: Some(DefinitionBody { parts: vec![part("notebook-content.ipynb", &encode_payload("{}"))] }),
    };
    assert_eq!(notebook_bytes(&def).ok().unwrap(), b"{}".to_vec());
    assert!(matches!(notebook_bytes(&ItemDefinition { definition: None }), Err(CellsError::NoDefinition)));
    let empty = ItemDefinition { definition: Some(DefinitionBody { parts: vec![] }) };
    assert!(matches!(notebook_bytes(&empty), Err(CellsError::NoParts)));
    let bad = ItemDefinition { definition: Some(DefinitionBody { parts: vec![part("a.ipynb", "%%%")] }) };
    assert!(matches!(notebook_bytes(&bad), Err(CellsError::BadPayload)));
}

#[test]
fn cell_source_string_forms() {
    assert_eq!(cell_source_string(&obj(vec![("source", arr(vec![s("a\n"), Json::Null, s("b")]))])), "a\nb");
    assert_eq!(cell_source_string(&obj(vec![("source", s("x"))])), "x");
    assert_eq!(cell_source_string(&obj(vec![])), "");
    assert_eq!(cell_type(&obj(vec![])), "unknown");
    assert_eq!(cell_type(&code_cell("")), "code");
}

#[test]
fn language_group_kernel_and_lakehouse_detection() {
    let meta = obj(vec![(
        "metadata",
        obj(vec![
            ("microsoft", obj(vec![("language_group", s("synapse_pyspark"))])),
            ("kernelspec", obj(vec![("name", s("python3"))])),
            ("dependencies", obj(vec![("lakehouse", obj(vec![("default_lakehouse", s("lh-1"))]))])),
        ]),
    )]);
    assert_eq!(detect_language_group(&meta), "synapse_pyspark");
    assert_eq!(detect_language_group(&obj(vec![])), "jupyter_python");
    assert_eq!(kernel_name(&meta), "python3");
    assert_eq!(kernel_name(&obj(vec![])), "jupyter");
    let non_string = obj(vec![(
        "metadata",
        obj(vec![
            ("kernel_info", obj(vec![("name", Json::Bool(true))])),
            ("kernelspec", obj(vec![("name", s("python3"))])),
        ]),
    )]);
    assert_eq!(kernel_name(&non_string), "jupyter");
    assert_eq!(default_lakehouse(&meta), Some("lh-1".to_string()));
    let empty_lh = obj(vec![(
        "metadata",
        obj(vec![("dependencies", obj(vec![("lakehouse", obj(vec![("default_lakehouse", s(""))]))]))]),
    )]);
    assert_eq!(default_lakehouse(&empty_lh), None);
}

#[test]
fn source_lines_keep_line_breaks_but_last() {
    let got: Vec<String> = source_lines("a\r\nb\n\nc").iter().map(|j| match j {
        Json::Str(x) => x.clone(),
        _ => panic!("string expected"),
    }).collect();
    assert_eq!(got, vec!["a\n", "b\n", "\n", "c"]);
    assert!(source_lines("").is_empty());
    assert_eq!(source_lines("x\n").len(), 1);
}

#[test]
fn new_cells_by_kind() {
    let c = new_cell("print(1)", false, "jupyter_python");
    match &c {
        Json::Object(f) => {
            let keys: Vec<&str> = f.iter().map(|(k, _)| k.as_str()).collect();
            assert_eq!(keys, vec!["cell_type", "metadata", "source", "outputs", "execution_count"]);
        }
        _ => panic!("object expected"),
    }
    let m = new_cell("# T", true, "g");
    assert_eq!(cell_type(&m), "markdown");
    match &m {
        Json::Object(f) => assert_eq!(f.len(), 3),
        _ => panic!("object expected"),
    }
}

#[test]
fn insert_and_remove_cells() {
    let mut d = doc(vec![code_cell("a"), code_cell("b")]);
    assert_eq!(insert_cell(&mut d, code_cell("x"), Some(1)).ok(), Some(1));
    assert_eq!(sources(&d), vec!["a", "x", "b"]);
    assert_eq!(insert_cell(&mut d, code_cell("z"), None).ok(), Some(3));
    assert_eq!(sources(&d), vec!["a", "x", "b", "z"]);
    assert!(matches!(
        insert_cell(&mut d, code_cell("q"), Some(5)),
        Err(CellsError::InsertOutOfRange { pos: 5, len: 4 })
    ));
    let removed = remove_cell(&mut d, 1).ok().unwrap();
    assert_eq!(cell_source_string(&removed), "x");
    assert_eq!(sources(&d), vec!["a", "b", "z"]);
    assert!(matches!(remove_cell(&mut d, 3), Err(CellsError::IndexOutOfRange { index: 3, len: 3 })));
    let mut no_cells = obj(vec![]);
    assert!(matches!(remove_cell(&mut no_cells, 0), Err(CellsError::NoCells)));
}

#[test]
fn remove_undoes_insert_on_values() {
    let before = doc(vec![code_cell("a"), code_cell("b")]);
    let mut d = doc(vec![code_cell("a"), code_cell("b")]);
    let at = insert_cell(&mut d, code_cell("new"), Some(0)).ok().unwrap();
    let _ = remove_cell(&mut d, at);
    assert_eq!(sources(&d), sources(&before));
    match (&d, &before) {
        (Json::Object(a), Json::Object(b)) => {
            let ka: Vec<&String> = a.iter().map(|(k, _)| k).collect();
            let kb: Vec<&String> = b.iter().map(|(k, _)| k).collect();
            assert_eq!(ka, kb);
        }
        _ => panic!("objects expected"),
    }
}

#[test]
fn edit_cell_source_reads_back() {
    let mut d = doc(vec![code_cell("a"), code_cell("b")]);
    let t = set_cell_source(&mut d, 1, "x = 1\r\ny = 2\n").ok().unwrap();
    assert_eq!(t, "code");
    assert_eq!(sources(&d), vec!["a", "x = 1\ny = 2"]);
    assert!(matches!(set_cell_source(&mut d, 2, "q"), Err(CellsError::IndexOutOfRange { index: 2, len: 2 })));
}

#[test]
fn add_cell_uses_language_group() {
    let mut d = obj(vec![
        ("metadata", obj(vec![("microsoft", obj(vec![("language_group", s("synapse_pyspark"))]))])),
        ("cells", arr(vec![])),
    ]);
    assert_eq!(add_cell(&mut d, "# Title", true, None).ok(), Some(0));
    let c = cell_at(&d, 0).ok().unwrap();
    assert_eq!(cell_type(c), "markdown");
    match c.get("metadata").and_then(|m| m.get("microsoft")).and_then(|m| m.get("language_group")) {
        Some(Json::Str(g)) => assert_eq!(g, "synapse_pyspark"),
        _ => panic!("language group expected"),
    }
    assert!(matches!(cell_at(&d, 1), Err(CellsError::IndexOutOfRange { index: 1, len: 1 })));
}

#[test]
fn long_lines_are_cut() {
    let short = "x".repeat(80);
    assert_eq!(truncate_line(&short), short);
    let long = "y".repeat(81);
    assert_eq!(truncate_line(&long), format!("{}...", "y".repeat(77)));
    let wide = format!("{}é{}", "x".repeat(76), "y".repeat(10));
    assert_eq!(truncate_line(&wide), format!("{}...", "x".repeat(76)));
    let at_boundary = format!("{}é{}", "x".repeat(75), "y".repeat(10));
    assert_eq!(truncate_line(&at_boundary), format!("{}é...", "x".repeat(75)));
}

#[test]
fn added_cell_reads_back_code() {
    let mut d = doc(vec![code_cell("first")]);
    let code = "import os\n\nprint(os.getcwd())";
    assert_eq!(add_cell(&mut d, code, false, Some(0)).ok(), Some(0));
    let c = cell_at(&d, 0).ok().unwrap();
    assert_eq!(cell_source_string(c), code);
    assert_eq!(cell_source_string(&new_cell("a\r\nb\n", true, "g")), "a\nb");
    assert_eq!(sources(&d), vec![code, "first"]);
}
