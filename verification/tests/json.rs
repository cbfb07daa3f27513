use bearer_gateway::auth0::Auth0Configuration;
use bearer_gateway::json::Json;

#[test]
fn parse_reads_every_kind_of_value() {
    let doc = Json::parse("{\"a\":\"x\",\"b\":true,\"c\":[\"p\",\"q\"],\"d\":42,\"e\":null,\"f\":{\"g\":1.5}}")
        .unwrap();
    assert_eq!(doc.get("a").unwrap().text(), Some("x"));
    assert_eq!(doc.get("b").unwrap().flag(), Some(true));
    assert_eq!(doc.get("c").unwrap().texts(), Some(vec!["p".to_string(), "q".to_string()]));
    assert!(matches!(doc.get("d"), Some(Json::Number(n)) if n == "42"));
    assert!(matches!(doc.get("e"), Some(Json::Null)));
    assert!(matches!(doc.get("f").unwrap().get("g"), Some(Json::Number(n)) if n == "1.5"));
    assert!(doc.get("z").is_none());
    assert!(doc.get("A").is_none());
}

#[test]
fn parse_fails_on_text_that_is_no_json() {
    assert!(Json::parse("").is_err());
    assert!(Json::parse("{").is_err());
    assert!(Json::parse("{\"a\":}").is_err());
    assert!(Json::parse("nil").is_err());
}

#[test]
fn readers_refuse_values_of_another_kind() {
    let text = Json::Text("x".to_string());
    let flag = Json::Bool(false);
    let list = Json::List(vec![Json::Text("p".to_string()), Json::Bool(true)]);
    assert_eq!(text.text(), Some("x"));
    assert_eq!(text.flag(), None);
    assert_eq!(text.texts(), None);
    assert!(text.get("x").is_none());
    assert_eq!(flag.flag(), Some(false));
    assert_eq!(flag.text(), None);
    assert_eq!(list.texts(), None);
    assert_eq!(Json::List(vec![]).texts(), Some(vec![]));
    assert_eq!(Json::Null.text(), None);
}

#[test]
fn get_takes_the_first_member_of_a_name() {
    let doc = Json::Object(vec![
        ("k".to_string(), Json::Text("first".to_string())),
        ("k".to_string(), Json::Text("second".to_string())),
    ]);
    assert_eq!(doc.get("k").unwrap().text(), Some("first"));
}

#[test]
fn configuration_names_the_first_field_that_is_missing() {
    let doc = Json::Object(vec![("issuer".to_string(), Json::Text("i".to_string()))]);
    assert_eq!(Auth0Configuration::from_json(&doc).unwrap_err(), "authorization_endpoint");
    assert_eq!(Auth0Configuration::from_json(&Json::Null).unwrap_err(), "issuer");
    let doc = Json::Object(vec![("issuer".to_string(), Json::Bool(true))]);
    assert_eq!(Auth0Configuration::from_json(&doc).unwrap_err(), "issuer");
}
