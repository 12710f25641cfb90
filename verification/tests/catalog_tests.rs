use ai_tool_calling::catalog::{GroupedToolDefinition, ToolCatalog};
use ai_tool_calling::dispatch::{route_tool_call, DispatchRoute};
use ai_tool_calling::error::Error;
use ai_tool_calling::interface::ToolDefinition;
use ai_tool_calling::intrinsic::{tool_output_read_definition, TOOL_OUTPUT_READ_DESCRIPTION};
use ai_tool_calling::runtime::RuntimeState;
use ai_tool_calling::tool_output::is_intrinsic_tool;
use ai_tool_calling::ToolOutputPolicy;

fn object_schema() -> serde_json::Value {
    serde_json::from_str("{\"type\":\"object\"}").unwrap()
}

fn definition(name: &str, verb: Option<&str>) -> ToolDefinition {
    ToolDefinition {
        name: name.to_owned(),
        description: "Catalog-only test tool.".to_owned(),
        input_schema: object_schema(),
        activity_verb: verb.map(str::to_owned),
    }
}

fn grouped(name: &str, verb: Option<&str>, group: Option<&str>) -> GroupedToolDefinition {
    GroupedToolDefinition { definition: definition(name, verb), group: group.map(str::to_owned) }
}

fn assert_reader_definition(definitions: &[ToolDefinition]) {
    let reader = definitions.last().expect("reader definition");
    assert_eq!(reader.name, "tool_output_read");
    assert_eq!(reader.description, TOOL_OUTPUT_READ_DESCRIPTION);
    assert_eq!(reader.activity_verb.as_deref(), Some("Reading"));
    assert_eq!(reader.input_schema["required"][0], "output_id");
    assert_eq!(reader.input_schema["additionalProperties"], false);
}

#[test]
fn reserved_reader_name_is_rejected_for_injected_tools() {
    let error = match RuntimeState::new(
        "system prompt".to_owned(),
        vec![vec![grouped("tool_output_read", None, None)]],
        ToolOutputPolicy::default(),
    ) {
        Ok(_) => panic!("reserved tool name should fail construction"),
        Err(error) => error,
    };

    assert!(matches!(error, Error::ReservedToolDefinition { name } if name == "tool_output_read"));
}

#[test]
fn intrinsic_reader_definition_is_always_present_after_tool_replacement() {
    let mut runtime =
        RuntimeState::new("system prompt".to_owned(), Vec::new(), ToolOutputPolicy::default())
            .expect("runtime should build");

    assert_reader_definition(runtime.tool_definitions());
    runtime
        .replace_tools(vec![vec![grouped("echo", None, None)]])
        .expect("replacement should accept normal tools");
    let definitions = runtime.tool_definitions();

    assert!(definitions.iter().any(|definition| definition.name == "echo"));
    assert_reader_definition(definitions);
}

#[test]
fn duplicate_names_across_tools_are_refused_with_the_name() {
    let result = ToolCatalog::new(vec![
        vec![grouped("search", None, None)],
        vec![grouped("fetch", None, None), grouped("search", None, None)],
    ]);

    assert!(matches!(result, Err(Error::DuplicateToolDefinition { name }) if name == "search"));
}

#[test]
fn the_first_conflict_decides_the_refusal() {
    let result = ToolCatalog::new(vec![vec![
        grouped("a", None, None),
        grouped("a", None, None),
        grouped("tool_output_read", None, None),
    ]]);

    assert!(matches!(result, Err(Error::DuplicateToolDefinition { name }) if name == "a"));
}

#[test]
fn a_refused_replacement_keeps_the_previous_tools() {
    let mut runtime = RuntimeState::new(
        "system".to_owned(),
        vec![vec![grouped("echo", None, None)]],
        ToolOutputPolicy::default(),
    )
    .unwrap();

    let refused = runtime.replace_tools(vec![vec![grouped("x", None, None), grouped("x", None, None)]]);

    assert!(refused.is_err());
    let names: Vec<&str> = runtime.tool_definitions().iter().map(|d| d.name.as_str()).collect();
    assert_eq!(names, vec!["echo", "tool_output_read"]);
}

#[test]
fn catalog_routes_names_to_their_owners_with_verbs_and_groups() {
    let catalog = ToolCatalog::new(vec![
        vec![grouped("search", Some("Searching"), Some("web"))],
        vec![grouped("fetch", None, None), grouped("store", Some("Storing"), Some("files"))],
    ])
    .unwrap();

    assert_eq!(catalog.tool_for_name("search"), Some(0));
    assert_eq!(catalog.tool_for_name("fetch"), Some(1));
    assert_eq!(catalog.tool_for_name("store"), Some(1));
    assert_eq!(catalog.tool_for_name("missing"), None);
    assert_eq!(catalog.activity_verb_for_name("search").as_deref(), Some("Searching"));
    assert_eq!(catalog.activity_verb_for_name("tool_output_read").as_deref(), Some("Reading"));
    assert_eq!(catalog.activity_verb_for_name("fetch"), None);
    assert_eq!(catalog.tool_group_for_name("store").as_deref(), Some("files"));
    assert_eq!(catalog.tool_group_for_name("fetch"), None);
    assert_eq!(catalog.definitions().len(), 4);
}

#[test]
fn dispatch_routes_reader_known_and_unknown_names() {
    let catalog = ToolCatalog::new(vec![vec![grouped("search", None, None)]]).unwrap();

    assert!(matches!(route_tool_call(&catalog, "tool_output_read"), DispatchRoute::Intrinsic));
    assert!(matches!(route_tool_call(&catalog, "search"), DispatchRoute::Registered(0)));
    assert!(matches!(route_tool_call(&catalog, "nope"), DispatchRoute::Unknown));
    assert!(is_intrinsic_tool("tool_output_read"));
    assert!(!is_intrinsic_tool("tool_output_reader"));
    assert_eq!(tool_output_read_definition().name, "tool_output_read");
}
