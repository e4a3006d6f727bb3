use koharu::mcp::call::{
    call_tool, finish_call, make_call, refuse_call, reply_failure, reply_success, Content,
    Invocation, METHOD_NOT_FOUND,
};
use koharu::mcp::tools::{get_tool, AgentTool};
use serde_json::Value;

fn parse(text: &str) -> Value {
    serde_json::from_str(text).unwrap()
}

fn object(text: &str) -> serde_json::Map<String, Value> {
    match parse(text) {
        Value::Object(object) => object,
        _ => panic!("not an object"),
    }
}

fn available() -> Vec<AgentTool> {
    ["view_page", "run_pipeline"]
        .iter()
        .map(|name| AgentTool {
            name: name.to_string(),
            description: String::new(),
            parameters: Value::Null,
        })
        .collect()
}

fn text_of(block: &Content) -> &str {
    match block {
        Content::Text(text) => text,
        Content::Image { .. } => panic!("not a text"),
    }
}

fn image_of(block: &Content) -> (&str, &str) {
    match block {
        Content::Text(_) => panic!("not an image"),
        Content::Image { data, mime } => (data, mime),
    }
}

#[test]
fn unknown_tool_is_refused() {
    let refusal = call_tool(&available(), "paint", None).unwrap_err();
    assert_eq!(refusal.code, METHOD_NOT_FOUND);
    assert_eq!(refusal.message, "no such tool: paint");
    assert_eq!(refusal.data, vec![("tool".to_string(), "paint".to_string())]);
    assert_eq!(refuse_call("").message, "no such tool: ");
}

#[test]
fn refusal_has_the_code_of_the_protocol() {
    assert_eq!(METHOD_NOT_FOUND, rmcp::model::ErrorCode::METHOD_NOT_FOUND.0);
}

#[test]
fn calls_are_accepted_exactly_where_a_lookup_succeeds() {
    for name in ["view_page", "run_pipeline", "paint", "", "View_page"] {
        let accepted = call_tool(&available(), name, None).is_ok();
        assert_eq!(accepted, get_tool(available(), name).is_some());
    }
}

#[test]
fn arguments_are_handed_on_as_compact_json() {
    let arguments = object("{ \"page\" : 3, \"layers\" : [ \"a\", null ] }");
    let call = call_tool(&available(), "view_page", Some(arguments)).unwrap();
    assert_eq!(call.name, "view_page");
    assert_eq!(call.arguments, "{\"layers\":[\"a\",null],\"page\":3}");
    let empty = call_tool(&available(), "view_page", Some(object("{}"))).unwrap();
    assert_eq!(empty.arguments, "{}");
}

#[test]
fn missing_arguments_become_an_empty_object() {
    let call = call_tool(&available(), "run_pipeline", None).unwrap();
    assert_eq!(call.arguments, "{}");
}

#[test]
fn call_is_made_of_its_parts() {
    let written: Option<Result<String, ()>> = Some(Ok("{\"a\":1}".to_string()));
    let call = make_call("id".to_string(), "tool", written);
    assert_eq!((call.call_id.as_str(), call.name.as_str()), ("id", "tool"));
    assert_eq!(call.arguments, "{\"a\":1}");
    let failed: Option<Result<String, ()>> = Some(Err(()));
    assert_eq!(make_call(String::new(), "tool", failed).arguments, "");
    let absent: Option<Result<String, ()>> = None;
    assert_eq!(make_call(String::new(), "tool", absent).arguments, "{}");
}

#[test]
fn call_ids_are_random_uuids() {
    let first = call_tool(&available(), "view_page", None).unwrap().call_id;
    let second = call_tool(&available(), "view_page", None).unwrap().call_id;
    assert_ne!(first, second);
    for id in [first, second] {
        assert_eq!(id.len(), 36);
        for (at, c) in id.chars().enumerate() {
            match at {
                8 | 13 | 18 | 23 => assert_eq!(c, '-'),
                14 => assert_eq!(c, '4'),
                19 => assert!("89ab".contains(c)),
                _ => assert!("0123456789abcdef".contains(c)),
            }
        }
        assert_eq!(uuid::Uuid::parse_str(&id).unwrap().get_version_num(), 4);
    }
}

#[test]
fn value_is_answered_as_indented_json() {
    let reply = finish_call(Ok(Invocation {
        value: parse("{\"pages\":[1,2],\"name\":\"x\"}"),
        images: Vec::new(),
    }));
    assert!(!reply.is_error);
    assert!(reply.stop_watcher);
    assert_eq!(reply.content.len(), 1);
    let expected = "{\n  \"name\": \"x\",\n  \"pages\": [\n    1,\n    2\n  ]\n}";
    assert_eq!(text_of(&reply.content[0]), expected);
}

#[test]
fn plain_values_are_answered_as_json() {
    for (value, text) in [("null", "null"), ("\"a\"", "\"a\""), ("2.5", "2.5"), ("[]", "[]")] {
        let reply = finish_call(Ok(Invocation { value: parse(value), images: Vec::new() }));
        assert_eq!(text_of(&reply.content[0]), text);
    }
}

#[test]
fn images_follow_the_text() {
    let images = vec![
        "data:image/png;base64,AAAA".to_string(),
        "not a data url".to_string(),
        "data:;base64,BBBB".to_string(),
    ];
    let reply = finish_call(Ok(Invocation { value: parse("1"), images }));
    assert_eq!(reply.content.len(), 3);
    assert_eq!(text_of(&reply.content[0]), "1");
    assert_eq!(image_of(&reply.content[1]), ("AAAA", "image/png"));
    assert_eq!(image_of(&reply.content[2]), ("BBBB", "image/webp"));
}

#[test]
fn every_image_with_a_comma_is_kept() {
    let images: Vec<String> = (0..5).map(|i| format!("data:image/{i};base64,{i}")).collect();
    let reply = reply_success("done".to_string(), &images);
    assert_eq!(reply.content.len(), 6);
    assert_eq!(text_of(&reply.content[0]), "done");
    for i in 0..5 {
        let (data, mime) = (i.to_string(), format!("image/{i}"));
        assert_eq!(image_of(&reply.content[i + 1]), (data.as_str(), mime.as_str()));
    }
}

#[test]
fn no_image_is_invented() {
    let images = vec!["".to_string(), "x".to_string()];
    assert_eq!(reply_success(String::new(), &images).content.len(), 1);
}

#[test]
fn failure_is_answered_with_its_message() {
    for reply in [
        finish_call(Err("the page is locked".to_string())),
        reply_failure("the page is locked".to_string()),
    ] {
        assert!(reply.is_error);
        assert!(!reply.stop_watcher);
        assert_eq!(reply.content.len(), 1);
        assert_eq!(text_of(&reply.content[0]), "the page is locked");
    }
}
