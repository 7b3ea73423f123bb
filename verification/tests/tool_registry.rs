use potatohead::error::TypeError;
use potatohead::json::Json;
use potatohead::tools::{Tool, ToolCall, ToolRegistry};

struct Echo {
    name: String,
    description: String,
}

impl Tool for Echo {
    fn name(&self) -> &str {
        &self.name
    }

    fn description(&self) -> &str {
        &self.description
    }

    fn parameter_schema(&self) -> Json {
        Json::Object(vec![("type".to_string(), Json::Str("object".to_string()))])
    }

    fn execute(&self, args: Json) -> Result<Json, TypeError> {
        Ok(Json::Array(vec![Json::Str(self.description.clone()), args]))
    }
}

fn echo(name: &str, description: &str) -> Echo {
    Echo { name: name.to_string(), description: description.to_string() }
}

fn call(name: &str) -> ToolCall {
    ToolCall { tool_name: name.to_string(), call_id: None, arguments: Json::Bool(true) }
}

#[test]
fn registry_runs_the_named_tool() {
    let mut registry = ToolRegistry::new();
    assert!(registry.is_empty());
    registry.register_tool(echo("a", "first"));
    registry.register_tool(echo("b", "second"));
    assert_eq!(registry.len(), 2);
    assert!(registry.has_sync_tool("b"));
    assert!(!registry.has_sync_tool("c"));
    assert_eq!(
        registry.execute(&call("b")),
        Ok(Json::Array(vec![Json::Str("second".to_string()), Json::Bool(true)]))
    );
}

#[test]
fn registry_reports_a_missing_tool() {
    let registry: ToolRegistry<Echo> = ToolRegistry::new();
    assert_eq!(registry.execute(&call("missing")), Err(TypeError::Error("Tool missing not found".to_string())));
}

#[test]
fn registering_a_name_again_replaces_the_tool() {
    let mut registry = ToolRegistry::new();
    registry.register_tool(echo("a", "old"));
    registry.register_tool(echo("b", "other"));
    registry.register_tool(echo("a", "new"));
    assert_eq!(registry.len(), 2);
    let defs = registry.get_definitions();
    assert_eq!(defs.len(), 2);
    assert_eq!(defs[0].name, "a");
    assert_eq!(defs[0].description, "new");
    assert_eq!(defs[1].name, "b");
    assert_eq!(defs[1].parameters, Json::Object(vec![("type".to_string(), Json::Str("object".to_string()))]));
}
