use job_queue::Json;

fn text(s: &str) -> Json {
    Json::Text(s.to_string())
}

fn object(members: Vec<(&str, Json)>) -> Json {
    Json::Object(members.into_iter().map(|(k, v)| (k.to_string(), v)).collect())
}

#[test]
fn strings_builds_array_of_text() {
    let tags = vec!["email".to_string(), "priority".to_string()];
    assert_eq!(Json::strings(&tags), Json::Array(vec![text("email"), text("priority")]));
    assert_eq!(Json::strings(&[]), Json::Array(vec![]));
}

#[test]
fn as_strings_reads_array_of_text() {
    let json = Json::Array(vec![text("a"), text("b")]);
    assert_eq!(json.as_strings(), Some(vec!["a".to_string(), "b".to_string()]));
    assert_eq!(Json::Array(vec![]).as_strings(), Some(vec![]));
}

#[test]
fn as_strings_rejects_other_values() {
    assert_eq!(Json::Null.as_strings(), None);
    assert_eq!(text("a").as_strings(), None);
    assert_eq!(object(vec![("a", text("b"))]).as_strings(), None);
    assert_eq!(Json::Array(vec![text("a"), Json::Number("1".to_string())]).as_strings(), None);
    assert_eq!(Json::Array(vec![Json::Null]).as_strings(), None);
}

#[test]
fn strings_roundtrip() {
    let tags = vec!["x".to_string(), "".to_string(), "x".to_string()];
    assert_eq!(Json::strings(&tags).as_strings(), Some(tags));
}

#[test]
fn error_object_has_one_member() {
    assert_eq!(Json::error_object("boom"), object(vec![("error", text("boom"))]));
}

#[test]
fn with_error_sets_key_in_object() {
    let data = object(vec![("user_id", Json::Number("1".to_string()))]);
    assert_eq!(
        data.with_error("some error"),
        object(vec![("user_id", Json::Number("1".to_string())), ("error", text("some error"))])
    );
}

#[test]
fn with_error_replaces_earlier_error() {
    let data = object(vec![("error", text("old")), ("k", Json::Bool(true))]);
    assert_eq!(
        data.with_error("new"),
        object(vec![("k", Json::Bool(true)), ("error", text("new"))])
    );
}

#[test]
fn with_error_appends_to_array() {
    let data = Json::Array(vec![Json::Number("1".to_string())]);
    assert_eq!(
        data.with_error("e"),
        Json::Array(vec![Json::Number("1".to_string()), Json::error_object("e")])
    );
}

#[test]
fn with_error_pairs_scalar_with_error() {
    assert_eq!(
        Json::Null.with_error("intentional panic for testing"),
        Json::Array(vec![Json::Null, Json::error_object("intentional panic for testing")])
    );
    assert_eq!(
        text("payload").with_error("e"),
        Json::Array(vec![text("payload"), Json::error_object("e")])
    );
}

#[test]
fn clone_keeps_the_value() {
    let data = object(vec![
        ("a", Json::Array(vec![Json::Null, Json::Bool(false), text("t")])),
        ("b", object(vec![("n", Json::Number("-1.5e3".to_string()))])),
    ]);
    assert_eq!(data.clone(), data);
}
