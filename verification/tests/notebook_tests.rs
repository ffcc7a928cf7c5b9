use fabric_nb::json::{Json, JsonNumber};
use fabric_nb::notebook::{create_notebook_body, encode_payload, generate_ipynb, update_definition_body};
use serde_json::Value;

fn to_value(j: &Json) -> Value {
    match j {
        Json::Null => Value::Null,
        Json::Bool(b) => Value::Bool(*b),
        Json::Number(JsonNumber::UInt(u)) => Value::from(*u),
        Json::Number(JsonNumber::Int(i)) => Value::from(*i),
        Json::Number(JsonNumber::Float(f)) => serde_json::from_str(f).unwrap(),
        Json::Str(s) => Value::String(s.clone()),
        Json::Array(a) => Value::Array(a.iter().map(to_value).collect()),
        Json::Object(f) => {
            let mut m = serde_json::Map::new();
            for (k, v) in f {
                m.insert(k.clone(), to_value(v));
            }
            Value::Object(m)
        }
    }
}

fn parse(text: &str) -> Value {
    serde_json::from_str(text).unwrap()
}

#[test]
fn python_notebook_without_bindings() {
    let doc = generate_ipynb("python", None, None, None, None, "ws-1");
    let want = parse(
        r#"{
        "nbformat": 4, "nbformat_minor": 5,
        "metadata": {
            "kernel_info": {"name": "jupyter", "jupyter_kernel_name": "python3.11"},
            "kernelspec": {"name": "jupyter", "display_name": "Jupyter", "language": "python"},
            "language_info": {"name": "python", "version": ""},
            "microsoft": {"language": "python", "language_group": "jupyter_python",
                          "ms_spell_check": {"ms_spell_check_language": "en"}},
            "nteract": {"version": "nteract-front-end@1.0.0"},
            "widgets": {},
            "spark_compute": {"compute_id": "/trident/default"}
        },
        "cells": [{"cell_type": "code",
                   "metadata": {"microsoft": {"language": "python", "language_group": "jupyter_python"}},
                   "source": [""], "outputs": [], "execution_count": null}]
    }"#,
    );
    assert_eq!(to_value(&doc), want);
}

#[test]
fn pyspark_notebook_with_lakehouse_and_warehouse() {
    let doc = generate_ipynb("pyspark", Some("lh-id"), Some("MainLH"), Some("wh-id"), Some("WH"), "ws-1");
    let v = to_value(&doc);
    assert_eq!(v["metadata"]["kernel_info"], parse(r#"{"name": "synapse_pyspark"}"#));
    assert_eq!(
        v["metadata"]["kernelspec"],
        parse(r#"{"name": "python3", "display_name": "Python 3", "language": "python"}"#)
    );
    assert_eq!(
        v["metadata"]["dependencies"],
        parse(
            r#"{"lakehouse": {"default_lakehouse": "lh-id", "default_lakehouse_name": "MainLH",
                              "default_lakehouse_workspace_id": "ws-1", "known_lakehouses": [{"id": "lh-id"}]},
                "warehouse": {"default_warehouse": "wh-id", "default_warehouse_name": "WH",
                              "default_warehouse_workspace_id": "ws-1",
                              "known_warehouses": [{"id": "wh-id", "type": "Datawarehouse"}]}}"#
        )
    );
    assert_eq!(v["cells"][0]["metadata"]["microsoft"]["language_group"], "synapse_pyspark");
}

#[test]
fn half_given_binding_is_left_out() {
    let doc = generate_ipynb("other", Some("lh-id"), None, None, Some("WH"), "ws");
    let v = to_value(&doc);
    assert!(v["metadata"].get("dependencies").is_none());
    assert_eq!(v["metadata"]["kernelspec"]["display_name"], "Python 3");
    assert!(v["metadata"]["kernel_info"].get("jupyter_kernel_name").is_none());
}

#[test]
fn payload_encodes_text() {
    let text = "{\n  \"a\": \"é\"\n}";
    let enc = encode_payload(text);
    assert_eq!(enc, "ewogICJhIjogIsOpIgp9");
    assert_eq!(encode_payload("hi"), "aGk=");
}

#[test]
fn create_and_update_bodies() {
    let body = to_value(&create_notebook_body("ETL", "UEFZ"));
    assert_eq!(
        body,
        parse(
            r#"{"displayName": "ETL", "type": "Notebook",
                "definition": {"format": "ipynb", "parts": [{"path": "notebook-content.ipynb",
                               "payload": "UEFZ", "payloadType": "InlineBase64"}]}}"#
        )
    );
    let upd = to_value(&update_definition_body("UEFZ"));
    assert_eq!(upd["definition"], body["definition"]);
    assert_eq!(upd.as_object().unwrap().len(), 1);
}
