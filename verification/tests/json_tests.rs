use fabric_nb::json::{Json, JsonNumber};

fn obj(members: Vec<(&str, Json)>) -> Json {
    Json::Object(members.into_iter().map(|(k, v)| (k.to_string(), v)).collect())
}

#[test]
fn set_then_get_reads_back_and_keeps_others() {
    let mut j = obj(vec![("a", Json::Bool(true)), ("b", Json::Null)]);
    j.set("b", Json::Number(JsonNumber::UInt(3)));
    assert!(matches!(j.get("b"), Some(Json::Number(JsonNumber::UInt(3)))));
    assert!(matches!(j.get("a"), Some(Json::Bool(true))));
    j.set("c", Json::Str("x".into()));
    match &j {
        Json::Object(f) => assert_eq!(f.len(), 3),
        _ => panic!("object expected"),
    }
    let mut n = Json::Null;
    n.set("k", Json::Bool(false));
    assert!(matches!(n.get("k"), Some(Json::Bool(false))));
}

#[test]
fn lookup_follows_object_keys() {
    let j = obj(vec![("m", obj(vec![("k", Json::Str("v".into()))]))]);
    assert!(matches!(j.lookup(&["m", "k"]), Some(Json::Str(v)) if v == "v"));
    assert!(j.lookup(&["m", "x"]).is_none());
    assert!(Json::Array(vec![]).lookup(&["0"]).is_none());
    assert!(matches!(j.lookup(&[]), Some(Json::Object(_))));
}

#[test]
fn conversions_and_copies() {
    assert_eq!(Json::Number(JsonNumber::Int(5)).as_u64(), Some(5));
    assert_eq!(Json::Number(JsonNumber::Int(-5)).as_u64(), None);
    assert_eq!(Json::Number(JsonNumber::Float("1.5".into())).as_u64(), None);
    assert_eq!(JsonNumber::Float("1.5".into()).to_text(), "1.5");
    assert_eq!(Json::Bool(true).as_bool(), Some(true));
    assert!(Json::Null.as_str().is_none());
    let j = obj(vec![("a", Json::Array(vec![Json::Str("s".into())]))]);
    let c = j.copy();
    assert!(matches!(c.lookup(&["a"]).and_then(|a| a.as_array()).map(|v| v.len()), Some(1)));
}
