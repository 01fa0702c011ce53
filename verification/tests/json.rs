use shodan_client::error::ClientError;
use shodan_client::json::{alert_edit_json, alert_json, json_body};
use shodan_client::request::Body;

fn parse(text: &str) -> serde_json::Value {
    serde_json::from_str(text).unwrap()
}

fn alert_value(name: &str, ips: Vec<&str>, expires: i32) -> serde_json::Value {
    serde_json::Value::from_iter(vec![
        ("name", serde_json::Value::from(name)),
        ("filters", serde_json::Value::from_iter(vec![("ip", serde_json::Value::from(ips))])),
        ("expires", serde_json::Value::from(expires)),
    ])
}

#[test]
fn alert_json_text() {
    let text = alert_json("DNS Alert", &vec!["8.8.8.8", "1.1.1.1"], 0).unwrap();
    assert_eq!(text, "{\"expires\":0,\"filters\":{\"ip\":[\"8.8.8.8\",\"1.1.1.1\"]},\"name\":\"DNS Alert\"}");
}

#[test]
fn alert_json_reads_back_as_the_same_object() {
    let text = alert_json("DNS Alert", &vec!["8.8.8.8", "1.1.1.1"], 0).unwrap();
    let value = parse(&text);
    assert_eq!(value, alert_value("DNS Alert", vec!["8.8.8.8", "1.1.1.1"], 0));
    assert_eq!(value, parse("{\"filters\":{\"ip\":[\"8.8.8.8\",\"1.1.1.1\"]},\"name\":\"DNS Alert\",\"expires\":0}"));
    let object = value.as_object().unwrap();
    assert_eq!(object.len(), 3);
    assert_eq!(object["filters"].as_object().unwrap().len(), 1);
}

#[test]
fn alert_json_keeps_the_order_of_the_addresses() {
    let forward = parse(&alert_json("n", &vec!["a", "b"], 1).unwrap());
    let backward = parse(&alert_json("n", &vec!["b", "a"], 1).unwrap());
    assert_ne!(forward, backward);
    assert_eq!(forward["filters"]["ip"][0], serde_json::Value::from("a"));
    assert_eq!(forward["filters"]["ip"][1], serde_json::Value::from("b"));
}

#[test]
fn alert_json_escapes_what_json_reserves() {
    let name = "quote \" backslash \\ newline \n tab \t é ✓ \u{1}";
    let ips = vec!["10.0.0.0/8", "\"", ""];
    let text = alert_json(name, &ips, -5).unwrap();
    assert_eq!(parse(&text), alert_value(name, ips, -5));
}

#[test]
fn alert_json_with_no_address_has_an_empty_list() {
    let text = alert_json("empty", &vec![], 3600).unwrap();
    assert_eq!(text, "{\"expires\":3600,\"filters\":{\"ip\":[]},\"name\":\"empty\"}");
}

#[test]
fn alert_json_holds_the_bounds_of_expires() {
    assert_eq!(parse(&alert_json("n", &vec![], i32::MAX).unwrap())["expires"], serde_json::Value::from(2147483647));
    assert_eq!(parse(&alert_json("n", &vec![], i32::MIN).unwrap())["expires"], serde_json::Value::from(-2147483648i64));
}

#[test]
fn alert_edit_json_text() {
    let text = alert_edit_json(&vec!["1.1.1.1", "8.8.8.8"]).unwrap();
    assert_eq!(text, "{\"filters\":{\"ip\":[\"1.1.1.1\",\"8.8.8.8\"]}}");
    let expected = serde_json::Value::from_iter(vec![(
        "filters",
        serde_json::Value::from_iter(vec![("ip", serde_json::Value::from(vec!["1.1.1.1", "8.8.8.8"]))]),
    )]);
    assert_eq!(parse(&text), expected);
}

#[test]
fn json_body_of_a_text_is_that_text() {
    assert_eq!(json_body(Ok(String::from("{\"a\":1}"))), Ok(Body::Json(String::from("{\"a\":1}"))));
}

#[test]
fn json_body_of_a_failure_is_an_encoding_error() {
    let failure = serde_json::from_str::<serde_json::Value>("{").unwrap_err();
    assert_eq!(json_body(Err(failure)), Err(ClientError::Encoding));
}
