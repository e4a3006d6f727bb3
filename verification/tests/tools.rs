use koharu::mcp::tools::{find_tool, get_tool, input_schema, list_tools, mcp_tool, AgentTool};
use serde_json::Value;

fn schema(text: &str) -> Value {
    serde_json::from_str(text).unwrap()
}

fn tool(name: &str, description: &str, parameters: &str) -> AgentTool {
    AgentTool {
        name: name.to_string(),
        description: description.to_string(),
        parameters: schema(parameters),
    }
}

fn some_tools() -> Vec<AgentTool> {
    vec![
        tool("inspect_project", "inspects", "{\"type\":\"object\"}"),
        tool("view_page", "first", "{\"type\":\"object\",\"a\":1}"),
        tool("view_page", "second", "{}"),
        tool("odd", "no object", "[1,2]"),
    ]
}

#[test]
fn describes_a_tool() {
    let described = mcp_tool(tool("view_page", "renders", "{\"type\":\"object\",\"a\":[1]}"));
    assert_eq!(described.name, "view_page");
    assert_eq!(described.description, "renders");
    assert_eq!(Value::Object(described.input_schema), schema("{\"a\":[1],\"type\":\"object\"}"));
}

#[test]
fn schema_that_is_no_object_becomes_empty() {
    for parameters in ["[1,2]", "null", "true", "3", "\"text\""] {
        let described = mcp_tool(tool("odd", "", parameters));
        assert!(described.input_schema.is_empty());
    }
}

#[test]
fn schema_is_the_object_or_empty() {
    let parameters = schema("{\"type\":\"object\",\"a\":[1,{}]}");
    let object = parameters.as_object().unwrap();
    assert_eq!(&input_schema(Some(object)), object);
    assert!(input_schema(None).is_empty());
}

#[test]
fn lists_every_tool_in_order() {
    let listed = list_tools(some_tools());
    let names: Vec<&str> = listed.iter().map(|t| t.name.as_str()).collect();
    assert_eq!(names, ["inspect_project", "view_page", "view_page", "odd"]);
    let descriptions: Vec<&str> = listed.iter().map(|t| t.description.as_str()).collect();
    assert_eq!(descriptions, ["inspects", "first", "second", "no object"]);
    assert_eq!(listed[1].input_schema.len(), 2);
    assert!(list_tools(Vec::new()).is_empty());
}

#[test]
fn finds_the_first_tool_of_a_name() {
    assert_eq!(find_tool(&some_tools(), "view_page"), Some(1));
    assert_eq!(find_tool(&some_tools(), "odd"), Some(3));
    assert_eq!(find_tool(&some_tools(), "View_page"), None);
    assert_eq!(find_tool(&some_tools(), ""), None);
    let found = get_tool(some_tools(), "view_page").unwrap();
    assert_eq!(found.name, "view_page");
    assert_eq!(found.description, "first");
    assert_eq!(Value::Object(found.input_schema), schema("{\"type\":\"object\",\"a\":1}"));
    assert!(get_tool(some_tools(), "missing").is_none());
    assert!(get_tool(Vec::new(), "view_page").is_none());
}

#[test]
fn every_listed_tool_can_be_looked_up() {
    for listed in list_tools(some_tools()) {
        let found = get_tool(some_tools(), &listed.name).unwrap();
        assert_eq!(found.name, listed.name);
    }
    let distinct = || vec![tool("a", "1", "{}"), tool("b", "2", "{}"), tool("c", "3", "{}")];
    for (at, listed) in list_tools(distinct()).into_iter().enumerate() {
        assert_eq!(find_tool(&distinct(), &listed.name), Some(at));
        assert_eq!(get_tool(distinct(), &listed.name).unwrap().description, listed.description);
    }
}
