use rig_tool::definition::ToolDefinition;
use rig_tool::error::{ErrorMessage, ToolError, ToolSetError};
use rig_tool::model::{CallToolResult, Content, RawContent, RawTextContent};
use rig_tool::output::ToolOutput;
use rig_tool::tool::{
    begin_call, call_output, called, mcp_output, written, ByKind, McpToolDyn, Tool, ToolDyn,
    ToolEmbeddingDyn, ToolType,
};
use rig_tool::toolset::{request_outcome, ToolSet};
use std::collections::HashMap;

#[derive(Debug, PartialEq)]
struct MathError;

impl ErrorMessage for MathError {
    fn message(&self) -> String {
        "Math error".to_string()
    }
}

type Failure = ToolError<MathError>;

fn value(json: &str) -> serde_json::Value {
    serde_json::from_str(json).unwrap()
}

struct Adder;

impl Tool for Adder {
    const NAME: &'static str = "add";
    type Error = MathError;
    type Args = HashMap<String, i32>;
    type Output = i32;
    type DefinitionFuture<'a> = ToolDefinition;
    type CallFuture<'a> = Result<i32, MathError>;

    fn definition<'a>(&'a self, _prompt: String) -> ToolDefinition {
        ToolDefinition {
            name: "add".to_string(),
            description: "Add x and y together".to_string(),
            parameters: value(
                r#"{
                    "type": "object",
                    "properties": {
                        "x": {"type": "number", "description": "The first number to add"},
                        "y": {"type": "number", "description": "The second number to add"}
                    },
                    "required": ["x", "y"]
                }"#,
            ),
        }
    }

    fn call<'a>(&'a self, args: HashMap<String, i32>) -> Result<i32, MathError> {
        args["x"].checked_add(args["y"]).ok_or(MathError)
    }
}

struct Subtract;

impl Tool for Subtract {
    const NAME: &'static str = "subtract";
    type Error = MathError;
    type Args = HashMap<String, i32>;
    type Output = i32;
    type DefinitionFuture<'a> = ToolDefinition;
    type CallFuture<'a> = Result<i32, MathError>;

    fn definition<'a>(&'a self, prompt: String) -> ToolDefinition {
        assert_eq!(prompt, "");
        ToolDefinition {
            name: "subtract".to_string(),
            description: "Subtract y from x (i.e.: x - y)".to_string(),
            parameters: value(
                r#"{
                    "type": "object",
                    "properties": {
                        "x": {"type": "number", "description": "The number to subtract from"},
                        "y": {"type": "number", "description": "The number to subtract"}
                    },
                    "required": ["x", "y"]
                }"#,
            ),
        }
    }

    fn call<'a>(&'a self, args: HashMap<String, i32>) -> Result<i32, MathError> {
        args["x"].checked_sub(args["y"]).ok_or(MathError)
    }
}

/// The steps of a call to a tool whose futures are ready at once.
fn call_at_once<T>(tool: &T, args: &str) -> Result<String, Failure>
where
    T: for<'a> Tool<
        Args = HashMap<String, i32>,
        Output = i32,
        Error = MathError,
        CallFuture<'a> = Result<i32, MathError>,
    >,
{
    let returned = begin_call(tool, serde_json::from_str(args))?;
    let output = called(returned)?;
    written(serde_json::to_string(&output))
}

enum Operation {
    Adder(Adder),
    Subtract(Subtract),
    /// Answers every call with this text, under the name of the adder.
    Fixed(&'static str),
}

impl ToolDyn for Operation {
    type DefinitionFuture<'a> = ToolDefinition;
    type CallFuture<'a> = Result<String, Failure>;

    fn name(&self) -> String {
        match self {
            Operation::Adder(tool) => tool.name(),
            Operation::Subtract(tool) => tool.name(),
            Operation::Fixed(_) => "add".to_string(),
        }
    }

    fn definition<'a>(&'a self, prompt: String) -> ToolDefinition {
        match self {
            Operation::Adder(tool) => tool.definition(prompt),
            Operation::Subtract(tool) => tool.definition(prompt),
            Operation::Fixed(_) => Adder.definition(prompt),
        }
    }

    fn call<'a>(&'a self, args: String) -> Result<String, Failure> {
        match self {
            Operation::Adder(tool) => call_at_once(tool, &args),
            Operation::Subtract(tool) => call_at_once(tool, &args),
            Operation::Fixed(text) => Ok(text.to_string()),
        }
    }
}

/// A tool that can be embedded, unless its context is broken.
struct Memory {
    name: &'static str,
    context: &'static str,
}

impl ToolDyn for Memory {
    type DefinitionFuture<'a> = ToolDefinition;
    type CallFuture<'a> = Result<String, Failure>;

    fn name(&self) -> String {
        self.name.to_string()
    }

    fn definition<'a>(&'a self, _prompt: String) -> ToolDefinition {
        ToolDefinition {
            name: self.name.to_string(),
            description: "Remembers".to_string(),
            parameters: value("{}"),
        }
    }

    fn call<'a>(&'a self, args: String) -> Result<String, Failure> {
        Ok(format!("remembered {args}"))
    }
}

impl ToolEmbeddingDyn for Memory {
    fn context(&self) -> Result<serde_json::Value, serde_json::Error> {
        serde_json::from_str(self.context)
    }

    fn embedding_docs(&self) -> Vec<String> {
        vec![format!("{} remembers", self.name), "memory".to_string()]
    }
}

/// An MCP tool whose server answers every call with what it was called with.
struct Echo;

impl ToolDyn for Echo {
    type DefinitionFuture<'a> = ToolDefinition;
    type CallFuture<'a> = Result<String, Failure>;

    fn name(&self) -> String {
        "echo".to_string()
    }

    fn definition<'a>(&'a self, _prompt: String) -> ToolDefinition {
        ToolDefinition {
            name: "echo".to_string(),
            description: "".to_string(),
            parameters: value("{}"),
        }
    }

    fn call<'a>(&'a self, args: String) -> Result<String, Failure> {
        Ok(args)
    }
}

impl McpToolDyn for Echo {
    type McpFuture<'a> = Result<CallToolResult, Failure>;
    type OutputFuture<'a> = Result<ToolOutput, Failure>;

    fn call_mcp<'a>(&'a self, args: String) -> Result<CallToolResult, Failure> {
        Ok(CallToolResult {
            content: vec![Content {
                raw: RawContent::Text(RawTextContent { text: args, meta: None }),
                annotations: None,
            }],
            structured_content: Some(value("{\"echo\": true}")),
            is_error: None,
            meta: None,
        })
    }

    fn call_mcp_output<'a>(&'a self, args: String) -> Result<ToolOutput, Failure> {
        mcp_output(self.call_mcp(args))
    }
}

type Tools = ToolSet<Operation, Memory, Echo>;

fn get_test_toolset() -> Tools {
    let mut toolset = ToolSet::default();
    toolset.add_tool(Operation::Adder(Adder));
    toolset.add_tool(Operation::Subtract(Subtract));
    toolset
}

fn call(toolset: &Tools, toolname: &str, args: &str) -> Result<String, ToolSetError<MathError>> {
    let pending = toolset.call(toolname, args.to_string())?;
    request_outcome(pending.into_inner())
}

fn call_mcp(
    toolset: &Tools,
    toolname: &str,
    args: &str,
) -> Result<ToolOutput, ToolSetError<MathError>> {
    let pending = toolset.call_mcp(toolname, args.to_string())?;
    request_outcome(call_output(pending))
}

fn definitions(toolset: &Tools) -> Vec<ToolDefinition> {
    let mut run = toolset.get_tool_definitions();
    while let Some(pending) = run.next() {
        run.accept(pending.into_inner());
    }
    run.finish::<MathError>().unwrap()
}

#[test]
fn test_get_tool_definitions() {
    let toolset = get_test_toolset();
    let tools = definitions(&toolset);
    assert_eq!(tools.len(), 2);
}

#[test]
fn test_tool_deletion() {
    let mut toolset = get_test_toolset();
    assert_eq!(toolset.len(), 2);
    toolset.delete_tool("add");
    assert!(!toolset.contains("add"));
    assert_eq!(toolset.len(), 1);
}

#[test]
fn definitions_come_once_for_each_tool() {
    let toolset = get_test_toolset();
    let mut names: Vec<String> = definitions(&toolset).into_iter().map(|d| d.name).collect();
    names.sort();
    assert_eq!(names, vec!["add".to_string(), "subtract".to_string()]);
    assert!(definitions(&ToolSet::default()).is_empty());
}

#[test]
fn default_name_is_the_constant() {
    assert_eq!(Tool::name(&Adder), "add");
    assert_eq!(Tool::name(&Subtract), "subtract");
}

#[test]
fn calls_reach_the_tool_of_the_name() {
    let toolset = get_test_toolset();
    assert_eq!(call(&toolset, "add", r#"{"x": 2, "y": 3}"#).unwrap(), "5");
    assert_eq!(call(&toolset, "subtract", r#"{"x": 2, "y": 3}"#).unwrap(), "-1");
}

#[test]
fn unknown_name_is_not_found() {
    let toolset = get_test_toolset();
    match call(&toolset, "multiply", "{}") {
        Err(ToolSetError::ToolNotFoundError(name)) => assert_eq!(name, "multiply"),
        _ => panic!("the tool is unknown"),
    }
    match call_mcp(&toolset, "multiply", "{}") {
        Err(ToolSetError::ToolNotFoundError(name)) => assert_eq!(name, "multiply"),
        _ => panic!("the tool is unknown"),
    }
    assert!(toolset.get("multiply").is_none());
}

#[test]
fn deleted_tool_is_not_found_and_others_are() {
    let mut toolset = get_test_toolset();
    toolset.delete_tool("add");
    assert!(matches!(
        call(&toolset, "add", r#"{"x": 2, "y": 3}"#),
        Err(ToolSetError::ToolNotFoundError(_))
    ));
    assert_eq!(call(&toolset, "subtract", r#"{"x": 2, "y": 3}"#).unwrap(), "-1");
    toolset.delete_tool("add");
    assert_eq!(toolset.len(), 1);
    toolset.delete_tool("never there");
    assert_eq!(toolset.len(), 1);
    toolset.delete_tool("subtract");
    assert_eq!(toolset.len(), 0);
    assert!(definitions(&toolset).is_empty());
}

#[test]
fn error_of_the_tool_is_a_call_error() {
    let toolset = get_test_toolset();
    let error = call(&toolset, "add", r#"{"x": 2147483647, "y": 1}"#).unwrap_err();
    assert!(matches!(
        error,
        ToolSetError::ToolCallError(ToolError::ToolCallError(MathError))
    ));
    assert_eq!(error.message(), "ToolCallError: ToolCallError: Math error");
}

#[test]
fn unreadable_arguments_are_a_json_error() {
    let toolset = get_test_toolset();
    let error = call(&toolset, "add", "not json").unwrap_err();
    assert!(matches!(error, ToolSetError::ToolCallError(ToolError::JsonError(_))));
    assert_eq!(
        error.message(),
        "ToolCallError: JsonError: expected ident at line 1 column 2"
    );
}

#[test]
fn steps_of_a_call_hand_errors_on() {
    let broken = || serde_json::from_str::<i32>("x").unwrap_err();
    assert!(matches!(begin_call(&Adder, Err(broken())), Err(ToolError::JsonError(_))));
    assert!(matches!(called::<i32, MathError>(Ok(4)), Ok(4)));
    assert!(matches!(
        called::<i32, MathError>(Err(MathError)),
        Err(ToolError::ToolCallError(MathError))
    ));
    assert_eq!(written::<MathError>(Ok("4".to_string())).unwrap(), "4");
    assert!(matches!(written::<MathError>(Err(broken())), Err(ToolError::JsonError(_))));
}

#[test]
fn later_tool_takes_the_place_of_an_earlier_one() {
    let mut toolset = get_test_toolset();
    toolset.add_tool_boxed(Box::new(Operation::Fixed("seven")));
    assert_eq!(toolset.len(), 2);
    assert_eq!(call(&toolset, "add", r#"{"x": 2, "y": 3}"#).unwrap(), "seven");

    let made: Tools = ToolSet::from_tools(vec![
        Operation::Fixed("first"),
        Operation::Subtract(Subtract),
        Operation::Fixed("last"),
    ]);
    assert_eq!(made.len(), 2);
    assert_eq!(call(&made, "add", "").unwrap(), "last");

    let built: Tools = ToolSet::builder()
        .static_tool(Operation::Fixed("first"))
        .static_tool(Operation::Subtract(Subtract))
        .static_tool(Operation::Fixed("last"))
        .build();
    assert_eq!(built.len(), 2);
    assert_eq!(call(&built, "add", "").unwrap(), "last");
    assert_eq!(call(&built, "subtract", r#"{"x": 9, "y": 3}"#).unwrap(), "6");
}

#[test]
fn merging_prefers_the_added_set() {
    let mut toolset = get_test_toolset();
    let mut added: Tools = ToolSet::default();
    added.add_mcp_tool(Echo);
    added.add_tool(Operation::Fixed("added"));
    toolset.add_tools(added);
    assert_eq!(toolset.len(), 3);
    assert_eq!(call(&toolset, "add", "").unwrap(), "added");
    assert_eq!(call(&toolset, "echo", "hello").unwrap(), "hello");
    assert_eq!(definitions(&toolset).len(), 3);

    toolset.add_tools(ToolSet::default());
    assert_eq!(toolset.len(), 3);

    let mut empty: Tools = ToolSet::default();
    empty.add_tools(toolset);
    assert_eq!(empty.len(), 3);
    assert_eq!(call(&empty, "add", "").unwrap(), "added");
}

#[test]
fn output_depends_on_the_kind() {
    let mut toolset: Tools = ToolSet::builder()
        .static_tool(Operation::Fixed("text"))
        .dynamic_tool(Memory { name: "memory", context: "null" })
        .build();
    toolset.add_mcp_tool_boxed(Box::new(Echo));

    let simple = call_mcp(&toolset, "add", "").unwrap();
    assert!(!simple.is_mcp());
    assert_eq!(simple.as_text(), "text");

    let embedding = call_mcp(&toolset, "memory", "this").unwrap();
    assert!(!embedding.is_mcp());
    assert_eq!(embedding.as_text(), "remembered this");

    let mcp = call_mcp(&toolset, "echo", "that").unwrap();
    assert!(mcp.is_mcp());
    assert_eq!(mcp.as_text(), "that");
    assert_eq!(
        mcp.as_mcp().unwrap().structured_content,
        Some(value("{\"echo\": true}"))
    );

    assert!(!toolset.get("add").unwrap().is_mcp());
    assert!(!toolset.get("memory").unwrap().is_mcp());
    assert!(toolset.get("echo").unwrap().is_mcp());
    assert_eq!(toolset.get("memory").unwrap().name(), "memory");
}

#[test]
fn failures_are_handed_on_whatever_the_kind() {
    let failed = || Err::<String, Failure>(ToolError::ToolCallError(MathError));
    assert!(matches!(
        call_output(ByKind::Simple(failed())),
        Err(ToolError::ToolCallError(MathError))
    ));
    assert!(matches!(
        call_output(ByKind::Embedding(failed())),
        Err(ToolError::ToolCallError(MathError))
    ));
    assert!(matches!(
        call_output(ByKind::Mcp(mcp_output(Err(ToolError::ToolCallError(MathError))))),
        Err(ToolError::ToolCallError(MathError))
    ));
}

#[test]
fn documents_tell_name_and_definition() {
    let toolset = get_test_toolset();
    let mut run = toolset.documents();
    while let Some(pending) = run.next() {
        assert!(run.is_asking());
        let definition = pending.into_inner();
        run.accept::<MathError>(serde_json::to_string_pretty(&definition.description)).unwrap();
        assert!(!run.is_asking());
    }
    let mut documents = run.finish::<MathError>().unwrap();
    documents.sort_by(|a, b| a.id.cmp(&b.id));
    assert_eq!(documents.len(), 2);
    assert_eq!(documents[0].id, "add");
    assert_eq!(
        documents[0].text,
        "Tool: add\nDefinition: \n\"Add x and y together\""
    );
    assert!(documents[0].additional_props.is_empty());
    assert_eq!(documents[1].id, "subtract");
    assert_eq!(
        documents[1].text,
        "Tool: subtract\nDefinition: \n\"Subtract y from x (i.e.: x - y)\""
    );
}

#[test]
fn document_that_cannot_be_written_is_a_json_error() {
    let toolset = get_test_toolset();
    let mut run = toolset.documents();
    assert!(run.next().is_some());
    let broken = serde_json::from_str::<i32>("x").unwrap_err();
    assert!(matches!(
        run.accept::<MathError>(Err(broken)),
        Err(ToolSetError::JsonError(_))
    ));
}

#[test]
fn schemas_are_of_tools_that_can_be_embedded() {
    let toolset: Tools = ToolSet::builder()
        .static_tool(Operation::Adder(Adder))
        .dynamic_tool(Memory { name: "long", context: "{\"span\": 9}" })
        .dynamic_tool(Memory { name: "short", context: "[1]" })
        .build();
    let mut schemas = toolset.schemas().unwrap();
    schemas.sort_by(|a, b| a.name.cmp(&b.name));
    assert_eq!(schemas.len(), 2);
    assert_eq!(schemas[0].name, "long");
    assert_eq!(schemas[0].context, value("{\"span\": 9}"));
    assert_eq!(
        schemas[0].embedding_docs,
        vec!["long remembers".to_string(), "memory".to_string()]
    );
    assert_eq!(schemas[1].name, "short");
    assert_eq!(schemas[1].context, value("[1]"));
    assert!(get_test_toolset().schemas().unwrap().is_empty());
}

#[test]
fn broken_context_leaves_no_schemas() {
    let toolset: Tools = ToolSet::builder()
        .dynamic_tool(Memory { name: "long", context: "{}" })
        .dynamic_tool(Memory { name: "broken", context: "" })
        .build();
    let error = toolset.schemas().unwrap_err();
    assert_eq!(error.message(), "EOF while parsing a value at line 1 column 0");
}

#[test]
fn tools_are_numbered() {
    let toolset = get_test_toolset();
    let mut names: Vec<String> = Vec::new();
    let mut index = 0;
    while let Some(tool) = toolset.nth(index) {
        assert!(matches!(tool, ToolType::Simple(_)));
        names.push(tool.name());
        index += 1;
    }
    names.sort();
    assert_eq!(names, vec!["add".to_string(), "subtract".to_string()]);
}

#[test]
fn deleting_undoes_adding() {
    let mut toolset = get_test_toolset();
    toolset.add_mcp_tool(Echo);
    assert_eq!(toolset.len(), 3);
    toolset.delete_tool("echo");
    assert_eq!(toolset.len(), 2);
    assert!(!toolset.contains("echo"));
    assert!(toolset.contains("add"));
    assert!(toolset.contains("subtract"));
    assert_eq!(definitions(&toolset).len(), 2);
}

/// The names under which the tools of a set are reached, each held against what its tool says.
fn own_names(toolset: &Tools) -> Vec<String> {
    let mut names: Vec<String> = Vec::new();
    for name in ["add", "subtract", "echo", "memory"] {
        if let Some(tool) = toolset.get(name) {
            assert_eq!(tool.name(), name);
            names.push(name.to_string());
        }
    }
    assert_eq!(names.len(), toolset.len());
    names
}

#[test]
fn tools_stand_under_their_own_names() {
    assert!(own_names(&ToolSet::default()).is_empty());
    let mut toolset = get_test_toolset();
    assert_eq!(own_names(&toolset), ["add", "subtract"]);
    toolset.add_mcp_tool(Echo);
    assert_eq!(own_names(&toolset), ["add", "subtract", "echo"]);
    toolset.delete_tool("subtract");
    assert_eq!(own_names(&toolset), ["add", "echo"]);
    toolset.add_tools(
        ToolSet::builder()
            .static_tool(Operation::Fixed("again"))
            .dynamic_tool(Memory { name: "memory", context: "null" })
            .build(),
    );
    assert_eq!(own_names(&toolset), ["add", "echo", "memory"]);
}

#[test]
fn documents_are_known_apart() {
    let mut toolset: Tools = ToolSet::from_tools(vec![
        Operation::Fixed("first"),
        Operation::Subtract(Subtract),
        Operation::Fixed("last"),
    ]);
    toolset.add_mcp_tool(Echo);
    let mut run = toolset.documents();
    while run.next().is_some() {
        run.accept::<MathError>(Ok("{}".to_string())).unwrap();
    }
    let documents = run.finish::<MathError>().unwrap();
    let mut ids: Vec<String> = documents.into_iter().map(|document| document.id).collect();
    ids.sort();
    assert_eq!(ids, ["add", "echo", "subtract"]);
}

#[test]
fn merging_one_after_the_other_or_first_into_one() {
    let with = |text: &'static str| -> Tools { ToolSet::from_tools(vec![Operation::Fixed(text)]) };
    let echo = || -> Tools {
        let mut toolset = ToolSet::default();
        toolset.add_mcp_tool(Echo);
        toolset
    };

    let mut one_by_one = get_test_toolset();
    one_by_one.add_tools(with("second"));
    one_by_one.add_tools(echo());
    one_by_one.add_tools(with("third"));

    let mut later = with("second");
    later.add_tools(echo());
    later.add_tools(with("third"));
    let mut at_once = get_test_toolset();
    at_once.add_tools(later);

    for toolset in [one_by_one, at_once] {
        assert_eq!(toolset.len(), 3);
        assert_eq!(call(&toolset, "add", "").unwrap(), "third");
        assert_eq!(call(&toolset, "subtract", r#"{"x": 1, "y": 1}"#).unwrap(), "0");
        assert_eq!(call(&toolset, "echo", "e").unwrap(), "e");
    }
}

#[test]
fn first_failure_decides_what_a_call_comes_to() {
    assert_eq!(call_at_once(&Adder, r#"{"x": 4, "y": 5}"#).unwrap(), "9");
    assert!(matches!(call_at_once(&Adder, "[]"), Err(ToolError::JsonError(_))));
    assert!(matches!(
        call_at_once(&Subtract, r#"{"x": -2147483648, "y": 1}"#),
        Err(ToolError::ToolCallError(MathError))
    ));
}
