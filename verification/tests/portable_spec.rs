use potatohead::error::TypeError;
use potatohead::json::{parse_json, Json};
use potatohead::spec::{
    choose_agent_from_portable, choose_prompt_from_portable, merge_extension_fields, merge_prompt_and_agent_instructions,
    validate_runtime_fields_in_value, AgentSpec, InstructionBlock, PortableSpec, PromptSpec,
};

fn s(v: &str) -> Json {
    Json::Str(v.to_string())
}

fn prompt(id: &str, instructions: Vec<&str>, output_schema: Option<Json>) -> PromptSpec {
    PromptSpec {
        id: id.to_string(),
        version: "1.0.0".to_string(),
        title: None,
        description: None,
        instructions: instructions
            .into_iter()
            .map(|c| InstructionBlock { role: "system".to_string(), content: c.to_string() })
            .collect(),
        variables: vec![],
        input_schema: None,
        output_schema,
        tags: vec![],
        metadata: vec![],
        extensions: vec![],
    }
}

fn agent(id: &str) -> AgentSpec {
    AgentSpec {
        id: id.to_string(),
        version: "1.0.0".to_string(),
        name: None,
        description: None,
        primary_prompt: None,
        prompt_refs: vec![],
        input_schema: None,
        output_schema: None,
        tool_refs: vec![],
        agent_refs: vec![],
        capabilities: vec![],
        provider_hints: vec![],
        framework_hints: vec![],
        tags: vec![],
        metadata: vec![],
        extensions: vec![],
    }
}

fn category_schema() -> Json {
    Json::Object(vec![
        ("type".to_string(), s("object")),
        (
            "properties".to_string(),
            Json::Object(vec![("category".to_string(), Json::Object(vec![("type".to_string(), s("string"))]))]),
        ),
    ])
}

fn support_spec(agent_name: &str, description: Option<&str>, ext: Vec<(String, Json)>, prompt_schema: Option<Json>) -> PortableSpec {
    let mut a = agent("support_agent");
    a.name = Some(agent_name.to_string());
    a.description = description.map(|d| d.to_string());
    a.primary_prompt = Some("support_prompt".to_string());
    a.extensions = ext;
    PortableSpec {
        version: "1.0".to_string(),
        prompts: vec![prompt("support_prompt", vec!["You classify support tickets."], prompt_schema)],
        agents: vec![a],
        metadata: vec![],
        extensions: vec![],
    }
}

fn openai_ext(fields: Vec<(&str, &str)>) -> Vec<(String, Json)> {
    vec![("openai_agents".to_string(), Json::Object(fields.into_iter().map(|(k, v)| (k.to_string(), s(v))).collect()))]
}

#[test]
fn portable_spec_deserializes_and_exports_openai() {
    let mut spec = support_spec(
        "Support Agent",
        Some("Routes support tickets to the right queue."),
        openai_ext(vec![("model", "gpt-4o-mini")]),
        Some(category_schema()),
    );
    spec.agents[0].tool_refs = vec!["ticket_lookup".to_string()];
    spec.agents[0].agent_refs = vec!["escalation_agent".to_string()];
    let export = spec.openai_export("support_agent").unwrap();

    assert_eq!(export.framework, "openai_agents");
    assert_eq!(export.agent_id, "support_agent");
    assert_eq!(export.config.get("name"), Some(&s("Support Agent")));
    assert_eq!(export.config.get("model"), Some(&s("gpt-4o-mini")));
    assert_eq!(export.config.get("handoffs"), Some(&Json::Array(vec![s("escalation_agent")])));
}

#[test]
fn runtime_field_is_rejected_in_agent() {
    let text = r#"{"version":"1.0","agents":[{"id":"support_agent","version":"1.0.0","max_iterations":4}]}"#;
    let value = parse_json(text).unwrap();
    let result = validate_runtime_fields_in_value(&value);
    assert!(result.is_err());
    match result.unwrap_err() {
        TypeError::Error(m) => assert!(m.contains("runtime-only field 'max_iterations'")),
        _ => panic!("expected a message"),
    }
}

#[test]
fn extension_does_not_override_canonical_core_fields() {
    let spec = support_spec(
        "Canonical Name",
        None,
        openai_ext(vec![("name", "Wrong Override Name"), ("model", "gpt-4o-mini")]),
        None,
    );
    let export = spec.openai_export("support_agent").unwrap();
    assert_eq!(export.config.get("name"), Some(&s("Canonical Name")));
    assert_eq!(export.config.get("model"), Some(&s("gpt-4o-mini")));
}

#[test]
fn openai_export_instructions_and_losses() {
    let spec = support_spec("Support Agent", Some("  Routes tickets.  "), vec![], None);
    let export = spec.openai_export("support_agent").unwrap();
    assert_eq!(export.config.get("instructions"), Some(&s("You classify support tickets.\n\nRoutes tickets.")));
    assert_eq!(export.config.get("tools"), Some(&Json::Array(vec![])));
    assert_eq!(export.losses, vec!["No output schema available for OpenAI export.".to_string()]);
    assert_eq!(spec.openai_export("nobody"), Err(TypeError::Error("Agent 'nobody' not found".to_string())));
}

#[test]
fn crewai_export_fields() {
    let mut spec = support_spec("Support Agent", None, vec![], Some(category_schema()));
    spec.agents[0].tool_refs = vec!["ticket_lookup".to_string()];
    let export = spec.crewai_export("support_agent").unwrap();
    assert_eq!(export.framework, "crewai");
    assert_eq!(export.config.get("id"), Some(&s("Support Agent")));
    assert_eq!(export.config.get("role"), Some(&s("Support Agent")));
    assert_eq!(export.config.get("goal"), Some(&s("Execute assigned tasks")));
    assert_eq!(export.config.get("backstory"), Some(&s("You classify support tickets.")));
    assert_eq!(export.config.get("tools"), Some(&Json::Array(vec![s("ticket_lookup")])));
    assert_eq!(export.config.get("expected_output_schema"), Some(&category_schema()));
    assert!(export.losses.is_empty());
}

#[test]
fn google_adk_export_fields() {
    let mut spec = support_spec("Support Agent", None, vec![], None);
    spec.agents[0].agent_refs = vec!["helper".to_string()];
    let export = spec.google_adk_export("support_agent").unwrap();
    assert_eq!(export.framework, "google_adk");
    assert_eq!(export.config.get("description"), Some(&s("")));
    assert_eq!(export.config.get("sub_agents"), Some(&Json::Array(vec![s("helper")])));
    assert_eq!(export.config.get("model"), None);
    assert_eq!(export.losses, vec!["No provider_hints model set for Google ADK export.".to_string()]);
    spec.agents[0].provider_hints = vec!["gemini-2.0-flash".to_string()];
    let export = spec.google_adk_export("support_agent").unwrap();
    assert_eq!(export.config.get("model"), Some(&s("gemini-2.0-flash")));
    assert!(export.losses.is_empty());
}

#[test]
fn missing_prompt_reference_is_a_loss() {
    let mut spec = support_spec("Support Agent", None, vec![], None);
    spec.agents[0].primary_prompt = Some("other".to_string());
    let export = spec.openai_export("support_agent").unwrap();
    assert_eq!(
        export.losses,
        vec![
            "Prompt reference 'other' was not found; exported instructions may be incomplete.".to_string(),
            "No output schema available for OpenAI export.".to_string(),
        ]
    );
    assert_eq!(export.config.get("instructions"), Some(&s("")));
}

#[test]
fn several_prompts_without_reference_is_a_loss() {
    let mut spec = support_spec("Support Agent", None, vec![], None);
    spec.agents[0].primary_prompt = None;
    spec.prompts.push(prompt("second", vec!["x"], None));
    let export = spec.crewai_export("support_agent").unwrap();
    assert_eq!(
        export.losses[0],
        "Agent has no prompt reference and spec contains multiple prompts; no prompt body was selected."
    );
}

#[test]
fn merged_instructions_skip_blank_blocks() {
    let p = prompt("p", vec!["  first  ", "   ", "second"], None);
    let mut a = agent("a");
    a.description = Some("   ".to_string());
    assert_eq!(merge_prompt_and_agent_instructions(&a, Some(&p)), "first\n\nsecond");
    assert_eq!(merge_prompt_and_agent_instructions(&a, None), "");
}

#[test]
fn choosing_prompts_and_agents() {
    let spec = support_spec("Support Agent", None, vec![], None);
    let p = choose_prompt_from_portable(spec, None).unwrap();
    assert_eq!(p.id, "support_prompt");

    let spec = support_spec("Support Agent", None, vec![], None);
    assert_eq!(
        choose_prompt_from_portable(spec, Some("nope")),
        Err(TypeError::Error("Prompt 'nope' not found in spec file".to_string()))
    );

    let mut spec = support_spec("Support Agent", None, vec![], None);
    spec.agents.push(agent("second"));
    assert_eq!(
        choose_agent_from_portable(spec, None),
        Err(TypeError::Error("Spec file contains 2 agents. Provide agent_id to disambiguate.".to_string()))
    );

    let mut spec = support_spec("Support Agent", None, vec![], None);
    spec.agents.push(agent("second"));
    assert_eq!(choose_agent_from_portable(spec, Some("second")).unwrap().id, "second");
}

#[test]
fn portable_spec_lookups() {
    let spec = support_spec("Support Agent", None, vec![], None);
    assert_eq!(spec.prompt("support_prompt".to_string()).unwrap().id, "support_prompt");
    assert_eq!(spec.prompt("x".to_string()), Err(TypeError::Error("Prompt 'x' not found".to_string())));
    assert_eq!(spec.agent("support_agent".to_string()).unwrap().name, Some("Support Agent".to_string()));
    assert!(spec.find_prompt("support_prompt").is_some());
}

#[test]
fn runtime_fields_in_prompts_and_documents() {
    let v = parse_json(r#"{"prompts":[{"id":"p","timeout":3}]}"#).unwrap();
    assert_eq!(
        validate_runtime_fields_in_value(&v),
        Err(TypeError::Error(
            "Prompt spec contains runtime-only field 'timeout'. Move runtime behavior to framework/runtime configuration."
                .to_string()
        ))
    );
    let v = parse_json(r#"{"id":"a","merge_strategy":"x"}"#).unwrap();
    assert_eq!(
        validate_runtime_fields_in_value(&v),
        Err(TypeError::Error(
            "Agent spec contains runtime-only field 'merge_strategy'. Move runtime behavior to framework/runtime configuration."
                .to_string()
        ))
    );
    assert!(validate_runtime_fields_in_value(&parse_json("[1,2]").unwrap()).is_ok());
}

#[test]
fn merging_extension_keeps_existing_keys() {
    let mut config = vec![("name".to_string(), s("keep"))];
    let ext = vec![(
        "fw".to_string(),
        Json::Object(vec![("name".to_string(), s("drop")), ("extra".to_string(), s("add"))]),
    )];
    merge_extension_fields(&mut config, &ext, "fw");
    assert_eq!(config, vec![("name".to_string(), s("keep")), ("extra".to_string(), s("add"))]);
    merge_extension_fields(&mut config, &ext, "other");
    assert_eq!(config.len(), 2);
}

#[test]
fn portable_documents_are_recognised() {
    let obj = |k: &str| Json::Object(vec![(k.to_string(), Json::Array(vec![]))]);
    assert!(potatohead::spec::is_portable(&obj("prompts")));
    assert!(potatohead::spec::is_portable(&obj("agents")));
    assert!(!potatohead::spec::is_portable(&obj("id")));
    assert!(!potatohead::spec::is_portable(&Json::Array(vec![])));
}
