use rig_tool::definition::ToolDefinition;
use rig_tool::error::{ErrorMessage, McpToolError, ToolError, ToolSetError};
use rig_tool::mcp::{call_mcp_outcome, call_outcome, unsupported_item, McpTool};
use rig_tool::model::{
    CallToolRequestParam, CallToolResult, Content, RawAudioContent, RawContent, RawEmbeddedResource, RawImageContent,
    RawTextContent, ResourceContents, ToolInfo,
};
use rig_tool::output::ToolOutput;
use rig_tool::text::join;
use rig_tool::tool::{call_output, mcp_output, ByKind, McpToolDyn, ToolDyn, ToolEmbeddingDyn};
use rig_tool::toolset::{request_outcome, ToolSet};

fn item(raw: RawContent) -> Content {
    Content { raw, annotations: None }
}

fn text(text: &str) -> Content {
    item(RawContent::Text(RawTextContent { text: text.to_string(), meta: None }))
}

fn image(data: &str, mime_type: &str) -> Content {
    item(RawContent::Image(RawImageContent {
        data: data.to_string(),
        mime_type: mime_type.to_string(),
        meta: None,
    }))
}

fn audio() -> Content {
    item(RawContent::Audio(RawAudioContent {
        data: "AAAA".to_string(),
        mime_type: "audio/wav".to_string(),
    }))
}

fn resource(resource: ResourceContents) -> Content {
    item(RawContent::Resource(RawEmbeddedResource { meta: None, resource }))
}

fn link() -> Content {
    item(RawContent::ResourceLink(rmcp::model::RawResource::new("file:///a", "a")))
}

fn answer(content: Vec<Content>, is_error: Option<bool>) -> CallToolResult {
    CallToolResult { content, structured_content: None, is_error, meta: None }
}

fn schema() -> serde_json::Map<String, serde_json::Value> {
    serde_json::from_str("{\"type\": \"object\"}").unwrap()
}

fn tool(description: Option<&str>) -> McpTool<u8> {
    McpTool::from_mcp_server(
        ToolInfo {
            name: "weather".to_string(),
            description: description.map(|d| d.to_string()),
            input_schema: schema(),
        },
        7,
    )
}

#[test]
fn tool_keeps_what_it_is_made_of() {
    let tool = tool(Some("Tells the weather"));
    assert_eq!(tool.name(), "weather");
    assert_eq!(*tool.client(), 7);
    let copy = tool.clone();
    assert_eq!(copy.name(), "weather");
    assert_eq!(*copy.client(), 7);
}

#[test]
fn definition_is_that_of_the_server() {
    let definition = tool(Some("Tells the weather")).definition("any prompt".to_string());
    assert_eq!(definition.name, "weather");
    assert_eq!(definition.description, "Tells the weather");
    assert_eq!(definition.parameters, serde_json::Value::Object(schema()));
    assert_eq!(tool(None).definition(String::new()).description, "");
}

#[test]
fn listed_tool_converts_to_its_definition() {
    let info = ToolInfo {
        name: "weather".to_string(),
        description: None,
        input_schema: schema(),
    };
    let by_reference = ToolDefinition::from(&info);
    assert_eq!(by_reference.name, "weather");
    assert_eq!(by_reference.description, "");
    assert_eq!(by_reference.parameters, serde_json::Value::Object(schema()));
    let by_value = ToolDefinition::from(info);
    assert_eq!(by_value.name, by_reference.name);
    assert_eq!(by_value.description, by_reference.description);
    assert_eq!(by_value.parameters, by_reference.parameters);
}

#[test]
fn arguments_are_sent_as_an_object() {
    let request = tool(None).call("{\"city\": \"Oslo\"}".to_string());
    assert_eq!(request.name, "weather");
    let arguments = request.arguments.unwrap();
    assert_eq!(arguments.len(), 1);
    assert_eq!(arguments["city"], serde_json::Value::String("Oslo".to_string()));

    let request = tool(None).call_mcp("{\"city\": \"Oslo\"}".to_string());
    assert_eq!(request.name, "weather");
    assert_eq!(request.arguments, Some(arguments));
}

#[test]
fn arguments_that_are_no_object_are_left_out() {
    for args in ["null", "", "not json", "[1]", "3", "{\"open\": "] {
        assert!(tool(None).call(args.to_string()).arguments.is_none());
        assert!(tool(None).call_mcp(args.to_string()).arguments.is_none());
    }
    let request = tool(None).request(Ok(Some(schema())));
    assert_eq!(request.arguments, Some(schema()));
    assert!(tool(None).request(Ok(None)).arguments.is_none());
}

#[test]
fn texts_come_to_one_text() {
    let result = answer(vec![text("a"), text("b"), text("")], None);
    assert_eq!(call_outcome(Ok(result)).unwrap(), "ab");
    assert_eq!(call_outcome(Ok(answer(vec![], Some(false)))).unwrap(), "");
}

#[test]
fn images_and_resources_are_written_out() {
    let result = answer(
        vec![
            image("QUJD", "image/png"),
            text("|"),
            resource(ResourceContents::TextResourceContents {
                uri: "file:///a".to_string(),
                mime_type: Some("text/plain".to_string()),
                text: "body".to_string(),
                meta: None,
            }),
            text("|"),
            resource(ResourceContents::TextResourceContents {
                uri: "file:///b".to_string(),
                mime_type: None,
                text: "body".to_string(),
                meta: None,
            }),
            text("|"),
            resource(ResourceContents::BlobResourceContents {
                uri: "file:///c".to_string(),
                mime_type: Some("image/gif".to_string()),
                blob: "R0lG".to_string(),
                meta: None,
            }),
            text("|"),
            resource(ResourceContents::BlobResourceContents {
                uri: "file:///d".to_string(),
                mime_type: None,
                blob: "R0lG".to_string(),
                meta: None,
            }),
        ],
        Some(false),
    );
    assert!(result.first_unrenderable().is_none());
    assert_eq!(
        call_outcome(Ok(result)).unwrap(),
        "data:image/png;base64,QUJD|data:text/plain;file:///a:body|file:///b:body\
         |data:image/gif;file:///c:R0lG|file:///d:R0lG"
    );
}

#[test]
fn sounds_and_links_have_no_rendering() {
    assert_eq!(answer(vec![text("a"), audio(), link()], None).first_unrenderable(), Some(1));
    assert_eq!(answer(vec![link()], None).first_unrenderable(), Some(0));
    assert_eq!(answer(vec![], None).first_unrenderable(), None);
    assert_eq!(unsupported_item(&answer(vec![text("a"), audio()], None)), Some(1));
    assert_eq!(unsupported_item(&answer(vec![text("a"), audio()], Some(true))), None);
    assert_eq!(unsupported_item(&answer(vec![text("a")], Some(false))), None);
    assert!(!audio().raw.is_renderable());
    assert!(text("a").raw.is_renderable());
    assert_eq!(text("a").raw.as_text().unwrap().text, "a");
    assert!(audio().raw.as_text().is_none());
}

fn failure(outcome: Result<String, ToolError<McpToolError>>) -> String {
    match outcome {
        Err(ToolError::ToolCallError(error)) => error.message(),
        _ => panic!("the call failed"),
    }
}

#[test]
fn failed_call_tells_its_texts() {
    let result = answer(vec![text("no such city"), text("try another")], Some(true));
    let output = ToolOutput::from(result.clone());
    assert!(output.is_error());
    assert_eq!(failure(call_outcome(Ok(result))), "MCP tool error: no such city\ntry another");
    assert_eq!(output.as_text(), "no such city\ntry another");
    assert_eq!(failure(call_outcome(Ok(answer(vec![], Some(true))))), "MCP tool error: ");
}

#[test]
fn failed_call_with_other_items_has_no_message() {
    let result = answer(vec![text("see"), audio()], Some(true));
    assert_eq!(failure(call_outcome(Ok(result))), "MCP tool error: No message returned");
}

#[test]
fn failure_of_the_service_is_told() {
    assert_eq!(
        failure(call_outcome(Err("Transport closed".to_string()))),
        "MCP tool error: Tool returned an error: Transport closed"
    );
    let error = call_mcp_outcome(Err("Transport closed".to_string())).unwrap_err();
    assert_eq!(
        error.message(),
        "ToolCallError: MCP tool error: Tool call failed: Transport closed"
    );
    assert_eq!(
        ToolSetError::from(error).message(),
        "ToolCallError: ToolCallError: MCP tool error: Tool call failed: Transport closed"
    );
}

#[test]
fn whole_answer_is_kept() {
    let mut result = answer(vec![text("a"), audio(), link()], Some(true));
    result.structured_content = Some(serde_json::Value::Bool(true));
    result.meta = Some(schema());
    let kept = call_mcp_outcome(Ok(result)).unwrap();
    assert_eq!(kept.content.len(), 3);
    assert!(matches!(kept.content[1].raw, RawContent::Audio(_)));
    match &kept.content[2].raw {
        RawContent::ResourceLink(resource) => assert_eq!(resource.uri, "file:///a"),
        _ => panic!("the link is kept"),
    }
    assert_eq!(kept.structured_content, Some(serde_json::Value::Bool(true)));
    assert_eq!(kept.is_error, Some(true));
    assert_eq!(kept.meta, Some(schema()));
}

/// A tool of a server that can be embedded.
struct Embedded(McpTool<u8>);

impl ToolDyn for Embedded {
    type DefinitionFuture<'a> = ToolDefinition;
    type CallFuture<'a> = CallToolRequestParam;

    fn name(&self) -> String {
        self.0.name()
    }

    fn definition<'a>(&'a self, prompt: String) -> ToolDefinition {
        self.0.definition(prompt)
    }

    fn call<'a>(&'a self, args: String) -> CallToolRequestParam {
        self.0.call(args)
    }
}

impl ToolEmbeddingDyn for Embedded {
    fn context(&self) -> Result<serde_json::Value, serde_json::Error> {
        Ok(serde_json::Value::Null)
    }

    fn embedding_docs(&self) -> Vec<String> {
        Vec::new()
    }
}

type Tools = ToolSet<McpTool<u8>, Embedded, McpTool<u8>>;

fn tools_with_weather() -> Tools {
    let mut tools: Tools = ToolSet::default();
    tools.add_mcp_tool(tool(Some("Tells the weather")));
    tools
}

#[test]
fn tool_of_a_server_is_reached_under_its_listed_name() {
    let tools = tools_with_weather();
    assert_eq!(tools.len(), 1);
    let reached = tools.get("weather").unwrap();
    assert!(reached.is_mcp());
    assert_eq!(reached.name(), "weather");
    let definition = reached.definition(String::new()).into_inner();
    assert_eq!(definition.name, "weather");
    assert_eq!(definition.description, "Tells the weather");
    assert_eq!(definition.parameters, serde_json::Value::Object(schema()));
}

#[test]
fn tool_of_a_server_puts_its_request() {
    let tools = tools_with_weather();
    let args = || "{\"type\": \"object\"}".to_string();
    match tools.call::<McpToolError>("weather", args()).unwrap() {
        ByKind::Mcp(request) => {
            assert_eq!(request.name, "weather");
            assert_eq!(request.arguments, Some(schema()));
        }
        _ => panic!("the tool is an MCP tool"),
    }
    match tools.call_mcp::<McpToolError>("weather", args()).unwrap() {
        ByKind::Mcp(request) => {
            assert_eq!(request.name, "weather");
            assert_eq!(request.arguments, Some(schema()));
        }
        _ => panic!("the tool is an MCP tool"),
    }
    let request = McpToolDyn::call_mcp(&tool(None), args());
    assert_eq!(request.name, "weather");
    assert_eq!(request.arguments, Some(schema()));
}

#[test]
fn answer_of_a_server_comes_whole_out_of_a_set() {
    let tools = tools_with_weather();
    assert!(tools.call_mcp::<McpToolError>("weather", "{}".to_string()).is_ok());

    let mut result = answer(vec![text("rain"), audio(), link()], Some(true));
    result.structured_content = Some(serde_json::Value::Bool(true));
    let kept = call_mcp_outcome(Ok(result.clone()));
    let output = request_outcome(call_output(ByKind::Mcp(mcp_output(kept)))).unwrap();
    assert!(output.is_mcp());
    assert!(output.is_error());
    let whole = output.as_mcp().unwrap();
    assert_eq!(whole.content.len(), 3);
    assert!(matches!(whole.content[1].raw, RawContent::Audio(_)));
    assert!(matches!(whole.content[2].raw, RawContent::ResourceLink(_)));
    assert_eq!(whole.structured_content, Some(serde_json::Value::Bool(true)));
    assert_eq!(whole.is_error, Some(true));

    let failed = request_outcome(call_outcome(Ok(result))).unwrap_err();
    assert_eq!(
        failed.message(),
        "ToolCallError: ToolCallError: MCP tool error: No message returned"
    );

    let lost = call_mcp_outcome(Err("Transport closed".to_string()));
    let failed = request_outcome(call_output(ByKind::Mcp(mcp_output(lost)))).unwrap_err();
    assert_eq!(
        failed.message(),
        "ToolCallError: ToolCallError: MCP tool error: Tool call failed: Transport closed"
    );
}

#[test]
fn output_of_text() {
    let output = ToolOutput::from("plain".to_string());
    assert_eq!(output.as_text(), "plain");
    assert!(!output.is_mcp());
    assert!(output.as_mcp().is_none());
    assert!(!output.is_error());
    assert_eq!(output.clone().as_text(), "plain");
}

#[test]
fn output_of_an_answer() {
    let annotations = rmcp::model::Annotations {
        audience: None,
        priority: Some(0.5),
        last_modified: None,
    };
    let mut noted = text("first");
    noted.annotations = Some(annotations.clone());
    let output = ToolOutput::from(answer(vec![noted, audio(), text("second")], None));
    assert!(output.is_mcp());
    assert!(!output.is_error());
    assert_eq!(output.as_text(), "first\nsecond");
    let copy = output.clone();
    let kept = copy.as_mcp().unwrap();
    assert_eq!(kept.content.len(), 3);
    assert_eq!(kept.content[0].annotations, Some(annotations));
    assert!(matches!(kept.content[1].raw, RawContent::Audio(_)));

    assert!(!ToolOutput::from(answer(vec![], Some(false))).is_error());
    assert!(ToolOutput::from(answer(vec![], Some(true))).is_error());
    assert_eq!(ToolOutput::from(answer(vec![audio()], None)).as_text(), "");
}

#[test]
fn one_text_is_the_same_either_way() {
    let result = answer(vec![text("only")], None);
    assert_eq!(ToolOutput::from(result.clone()).as_text(), "only");
    assert_eq!(call_outcome(Ok(result)).unwrap(), "only");
}

#[test]
fn copies_hold_the_same() {
    let original = answer(
        vec![
            text("a"),
            image("QUJD", "image/png"),
            audio(),
            link(),
            resource(ResourceContents::BlobResourceContents {
                uri: "file:///d".to_string(),
                mime_type: None,
                blob: "R0lG".to_string(),
                meta: Some(schema()),
            }),
        ],
        Some(false),
    );
    let copy = original.clone();
    assert_eq!(format!("{original:?}"), format!("{copy:?}"));
}

#[test]
fn messages_name_what_went_wrong() {
    let not_found: ToolSetError<McpToolError> = ToolSetError::ToolNotFoundError("x".to_string());
    assert_eq!(not_found.message(), "ToolNotFoundError: x");
    let interrupted: ToolSetError<McpToolError> = ToolSetError::Interrupted;
    assert_eq!(interrupted.message(), "Tool call interrupted");
    let broken = serde_json::from_str::<i32>("").unwrap_err();
    let json: ToolSetError<McpToolError> = ToolSetError::from(broken);
    assert_eq!(
        json.message(),
        "JsonError: EOF while parsing a value at line 1 column 0"
    );
    let call: ToolError<McpToolError> = ToolError::from(McpToolError::new("late".to_string()));
    assert_eq!(call.message(), "ToolCallError: MCP tool error: late");
}

#[test]
fn parts_are_joined() {
    let parts = |texts: &[&str]| texts.iter().map(|t| t.to_string()).collect::<Vec<String>>();
    assert_eq!(join(&parts(&[]), ", "), "");
    assert_eq!(join(&parts(&["a"]), ", "), "a");
    assert_eq!(join(&parts(&["a", "", "b"]), ", "), "a, , b");
}

#[test]
fn rendering_goes_item_by_item() {
    let first = || vec![text("a"), image("QQ==", "image/png")];
    let second = || vec![text("b")];
    let mut both = first();
    both.extend(second());
    assert_eq!(
        answer(both, None).render(),
        answer(first(), None).render() + &answer(second(), None).render()
    );
}

#[test]
fn definition_of_a_tool_is_that_of_what_is_listed() {
    let listed = ToolDefinition::from(ToolInfo {
        name: "weather".to_string(),
        description: Some("Tells the weather".to_string()),
        input_schema: schema(),
    });
    let told = tool(Some("Tells the weather")).definition("prompt".to_string());
    assert_eq!(told.name, listed.name);
    assert_eq!(told.description, listed.description);
    assert_eq!(told.parameters, listed.parameters);
}
