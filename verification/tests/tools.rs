use mcp_sdk::tools::{call_outcome, not_found, Tool, ToolError, Tools};
use mcp_sdk::types::{CallToolRequest, CallToolResponse, ToolDefinition, ToolResponseContent};
use serde_json::Value;

/// A tool that answers with a fixed line, or fails with it.
struct Fixed {
    name: String,
    description: String,
    line: String,
    fails: bool,
}

impl Fixed {
    fn new(name: &str, description: &str, line: &str) -> Fixed {
        Fixed {
            name: name.to_string(),
            description: description.to_string(),
            line: line.to_string(),
            fails: false,
        }
    }

    fn failing(name: &str, line: &str) -> Fixed {
        Fixed {
            name: name.to_string(),
            description: String::new(),
            line: line.to_string(),
            fails: true,
        }
    }
}

impl Tool for Fixed {
    fn name(&self) -> String {
        self.name.clone()
    }

    fn description(&self) -> String {
        self.description.clone()
    }

    fn input_schema(&self) -> Value {
        let mut schema = serde_json::Map::new();
        schema.insert("type".to_string(), Value::from("object"));
        Value::Object(schema)
    }

    fn call(&self, input: Option<Value>) -> Result<CallToolResponse, ToolError> {
        if self.fails {
            return Err(ToolError { message: self.line.clone() });
        }
        Ok(CallToolResponse {
            content: vec![ToolResponseContent::Text { text: self.line.clone() }],
            is_error: None,
            meta: input,
        })
    }
}

fn object_schema() -> Value {
    let mut schema = serde_json::Map::new();
    schema.insert("type".to_string(), Value::from("object"));
    Value::Object(schema)
}

fn text_error(text: &str) -> CallToolResponse {
    CallToolResponse {
        content: vec![ToolResponseContent::Text { text: text.to_string() }],
        is_error: Some(true),
        meta: None,
    }
}

#[test]
fn missing_tool_is_reported_in_the_answer() {
    let tools: Tools<Fixed> = Tools::default();
    let response = tools.call_tool(CallToolRequest {
        name: "missing".to_string(),
        arguments: Some(Value::Object(serde_json::Map::new())),
    });
    assert_eq!(response.is_error, Some(true));
    assert_eq!(response.content.len(), 1);
    match &response.content[0] {
        ToolResponseContent::Text { text } => {
            assert!(text.contains("not found"));
            assert_eq!(text, "Tool missing not found");
        }
        other => panic!("unexpected content: {:?}", other),
    }
    assert_eq!(response.meta, None);
}

#[test]
fn missing_tool_among_registered_ones() {
    let mut tools: Tools<Fixed> = Tools::default();
    tools.add_tool(Fixed::new("alpha", "first", "a"));
    tools.add_tool(Fixed::new("beta", "second", "b"));
    let response =
        tools.call_tool(CallToolRequest { name: "gamma".to_string(), arguments: None });
    assert_eq!(response, text_error("Tool gamma not found"));
}

#[test]
fn second_registration_replaces_the_first() {
    let mut tools: Tools<Fixed> = Tools::default();
    tools.add_tool(Fixed::new("echo", "old description", "old"));
    tools.add_tool(Fixed::new("echo", "new description", "new"));
    assert_eq!(tools.len(), 1);
    let listed = tools.list_tools();
    assert_eq!(
        listed,
        vec![ToolDefinition {
            name: "echo".to_string(),
            description: Some("new description".to_string()),
            input_schema: object_schema(),
        }]
    );
    let response = tools.call_tool(CallToolRequest { name: "echo".to_string(), arguments: None });
    assert_eq!(
        response.content,
        vec![ToolResponseContent::Text { text: "new".to_string() }]
    );
}

#[test]
fn replacing_keeps_the_other_tools_and_their_places() {
    let mut tools: Tools<Fixed> = Tools::default();
    tools.add_tool(Fixed::new("alpha", "first", "a1"));
    tools.add_tool(Fixed::new("beta", "second", "b1"));
    tools.add_tool(Fixed::new("alpha", "third", "a2"));
    assert_eq!(tools.len(), 2);
    let names: Vec<String> = tools.list_tools().into_iter().map(|d| d.name).collect();
    assert_eq!(names, vec!["alpha".to_string(), "beta".to_string()]);
    let descriptions: Vec<Option<String>> =
        tools.list_tools().into_iter().map(|d| d.description).collect();
    assert_eq!(descriptions, vec![Some("third".to_string()), Some("second".to_string())]);
    let beta = tools.call_tool(CallToolRequest { name: "beta".to_string(), arguments: None });
    assert_eq!(beta.content, vec![ToolResponseContent::Text { text: "b1".to_string() }]);
}

#[test]
fn empty_registry_lists_nothing() {
    let tools: Tools<Fixed> = Tools::default();
    assert_eq!(tools.len(), 0);
    assert_eq!(tools.list_tools(), Vec::<ToolDefinition>::new());
}

#[test]
fn definition_holds_name_description_and_schema() {
    let tool = Fixed::new("sum", "adds numbers", "3");
    assert_eq!(
        tool.as_definition(),
        ToolDefinition {
            name: "sum".to_string(),
            description: Some("adds numbers".to_string()),
            input_schema: object_schema(),
        }
    );
}

#[test]
fn successful_answer_is_handed_on_unchanged() {
    let mut tools: Tools<Fixed> = Tools::default();
    tools.add_tool(Fixed::new("echo", "says a line", "hello"));
    let arguments = Value::from(7);
    let response = tools.call_tool(CallToolRequest {
        name: "echo".to_string(),
        arguments: Some(arguments.clone()),
    });
    assert_eq!(
        response,
        CallToolResponse {
            content: vec![ToolResponseContent::Text { text: "hello".to_string() }],
            is_error: None,
            meta: Some(arguments),
        }
    );
}

#[test]
fn failing_tool_becomes_a_failed_answer() {
    let mut tools: Tools<Fixed> = Tools::default();
    tools.add_tool(Fixed::failing("boom", "exploded"));
    let response = tools.call_tool(CallToolRequest { name: "boom".to_string(), arguments: None });
    assert_eq!(response, text_error("Error calling tool boom: exploded"));
}

#[test]
fn call_outcome_keeps_success_and_describes_failure() {
    let answer = CallToolResponse {
        content: vec![
            ToolResponseContent::Text { text: "one".to_string() },
            ToolResponseContent::Image { data: "AAAA".to_string(), mime_type: "image/png".to_string() },
        ],
        is_error: Some(false),
        meta: None,
    };
    assert_eq!(call_outcome("t", Ok(answer.clone())), answer);
    assert_eq!(
        call_outcome("t", Err(ToolError { message: "no".to_string() })),
        text_error("Error calling tool t: no")
    );
    assert_eq!(call_outcome("", Err(ToolError { message: String::new() })), text_error("Error calling tool : "));
}

#[test]
fn not_found_names_the_tool() {
    assert_eq!(not_found("x y"), text_error("Tool x y not found"));
    assert_eq!(not_found(""), text_error("Tool  not found"));
    assert_eq!(CallToolResponse::error("plain".to_string()), text_error("plain"));
}

#[test]
fn register_files_the_tool_under_the_name_of_the_definition() {
    let mut tools: Tools<Fixed> = Tools::default();
    let definition = ToolDefinition {
        name: "alias".to_string(),
        description: None,
        input_schema: Value::Null,
    };
    tools.register(definition.clone(), Fixed::new("real name", "described", "line"));
    assert_eq!(tools.list_tools(), vec![definition]);
    let by_alias = tools.call_tool(CallToolRequest { name: "alias".to_string(), arguments: None });
    assert_eq!(by_alias.content, vec![ToolResponseContent::Text { text: "line".to_string() }]);
    let by_name =
        tools.call_tool(CallToolRequest { name: "real name".to_string(), arguments: None });
    assert_eq!(by_name, text_error("Tool real name not found"));
}

#[test]
fn register_twice_keeps_the_second_definition_and_tool() {
    let mut tools: Tools<Fixed> = Tools::default();
    let first = ToolDefinition {
        name: "t".to_string(),
        description: Some("first".to_string()),
        input_schema: Value::from(1),
    };
    let second = ToolDefinition {
        name: "t".to_string(),
        description: Some("second".to_string()),
        input_schema: Value::from(2),
    };
    tools.register(first, Fixed::new("t", "", "one"));
    tools.register(second.clone(), Fixed::new("t", "", "two"));
    assert_eq!(tools.len(), 1);
    assert_eq!(tools.list_tools(), vec![second.clone()]);
    assert_eq!(second.duplicate(), second);
    let answer = tools.call_tool(CallToolRequest { name: "t".to_string(), arguments: None });
    assert_eq!(answer.content, vec![ToolResponseContent::Text { text: "two".to_string() }]);
}

#[test]
fn names_are_compared_exactly() {
    let mut tools: Tools<Fixed> = Tools::default();
    tools.add_tool(Fixed::new("echo", "", "lower"));
    tools.add_tool(Fixed::new("Echo", "", "upper"));
    tools.add_tool(Fixed::new("echo ", "", "spaced"));
    assert_eq!(tools.len(), 3);
    let answer = tools.call_tool(CallToolRequest { name: "Echo".to_string(), arguments: None });
    assert_eq!(answer.content, vec![ToolResponseContent::Text { text: "upper".to_string() }]);
}

#[test]
fn described_definition_holds_what_it_was_given() {
    assert_eq!(
        ToolDefinition::described("sum".to_string(), "adds".to_string(), Value::from(4)),
        ToolDefinition {
            name: "sum".to_string(),
            description: Some("adds".to_string()),
            input_schema: Value::from(4),
        }
    );
    assert_eq!(
        ToolDefinition::described(String::new(), String::new(), Value::Null),
        ToolDefinition {
            name: String::new(),
            description: Some(String::new()),
            input_schema: Value::Null,
        }
    );
}

#[test]
fn a_definition_always_carries_a_description() {
    let plain = Fixed::new("plain", "", "line");
    assert_eq!(plain.as_definition().description, Some(String::new()));
    let failing = Fixed::failing("boom", "x");
    assert_eq!(failing.as_definition().description, Some(String::new()));
    assert_eq!(failing.as_definition().name, "boom");
}

#[test]
fn the_tool_gets_exactly_the_arguments_of_the_request() {
    let mut tools: Tools<Fixed> = Tools::default();
    tools.add_tool(Fixed::new("echo", "", "line"));
    // no arguments stay no arguments
    let none = tools.call_tool(CallToolRequest { name: "echo".to_string(), arguments: None });
    assert_eq!(none.meta, None);
    let null =
        tools.call_tool(CallToolRequest { name: "echo".to_string(), arguments: Some(Value::Null) });
    assert_eq!(null.meta, Some(Value::Null));
    let empty = tools.call_tool(CallToolRequest {
        name: "echo".to_string(),
        arguments: Some(Value::Object(serde_json::Map::new())),
    });
    assert_eq!(empty.meta, Some(Value::Object(serde_json::Map::new())));
}

#[test]
fn after_an_overwrite_the_second_tool_is_the_one_called() {
    let mut tools: Tools<Fixed> = Tools::default();
    tools.add_tool(Fixed::new("n", "", "from the first"));
    tools.add_tool(Fixed::failing("other", "unused"));
    tools.add_tool(Fixed::new("n", "", "from the second"));
    let answer = tools.call_tool(CallToolRequest {
        name: "n".to_string(),
        arguments: Some(Value::from("args")),
    });
    assert_eq!(
        answer,
        CallToolResponse {
            content: vec![ToolResponseContent::Text { text: "from the second".to_string() }],
            is_error: None,
            meta: Some(Value::from("args")),
        }
    );
}
