use craite::{
    JsonValue, MCPTool, MCPToolRegistry, MCPToolResult, SecurityAuditTool, ToolParameters,
};

/// A tool without a model: its specification functions are never run.
struct Echo {
    name: &'static str,
    reply: &'static str,
}

impl MCPTool for Echo {
    fn name_spec(&self) -> vstd::seq::Seq<char> {
        unreachable!()
    }

    fn description_spec(&self) -> vstd::seq::Seq<char> {
        unreachable!()
    }

    fn execute_spec(
        &self,
        _params: vstd::map::Map<vstd::seq::Seq<char>, craite::json::JsonModel>,
    ) -> craite::mcp::ToolResultModel {
        unreachable!()
    }

    fn name(&self) -> &str {
        self.name
    }

    fn description(&self) -> &str {
        "Answers with a fixed text"
    }

    fn execute(&self, _params: &ToolParameters) -> MCPToolResult {
        MCPToolResult::success(JsonValue::Str(self.reply.to_string()))
    }
}

fn reply_of(registry: &MCPToolRegistry, name: &str) -> JsonValue {
    registry.execute(name, &ToolParameters::new()).data
}

#[test]
fn an_unknown_tool_is_reported_in_the_envelope() {
    let registry = MCPToolRegistry::new();
    let result = registry.execute("nonexistent", &ToolParameters::new());
    assert_eq!(
        result,
        MCPToolResult {
            success: false,
            data: JsonValue::Null,
            error: Some("Tool not found: nonexistent".to_string()),
            metadata: None,
        }
    );
    assert!(registry.get("nonexistent").is_none());
}

#[test]
fn a_new_registry_holds_the_three_tools() {
    let registry = MCPToolRegistry::new();
    assert_eq!(registry.list(), vec!["openzeppelin_contracts", "security_audit", "gas_optimization"]);
    assert_eq!(
        registry.get("security_audit").unwrap().description(),
        "Automated security checks and vulnerability detection"
    );
    assert_eq!(registry.get("gas_optimization").unwrap().name(), "gas_optimization");
    assert_eq!(registry.get("openzeppelin_contracts").unwrap().name(), "openzeppelin_contracts");
}

#[test]
fn an_empty_registry_holds_nothing() {
    let registry = MCPToolRegistry::empty();
    assert_eq!(registry.list(), Vec::<&str>::new());
    assert!(registry.get("security_audit").is_none());
    assert_eq!(
        registry.execute("security_audit", &ToolParameters::new()).error,
        Some("Tool not found: security_audit".to_string())
    );
}

#[test]
fn the_registry_dispatches_by_name() {
    let registry = MCPToolRegistry::new();
    let mut params = ToolParameters::new();
    params.insert("code", JsonValue::Str("tx.origin".to_string()));
    let through = registry.execute("security_audit", &params);
    let direct = SecurityAuditTool::new().execute(&params);
    assert_eq!(through, direct);
    assert_eq!(through.data.member("score"), Some(&JsonValue::Int(80)));
    let gas = registry.execute("gas_optimization", &params);
    assert_eq!(gas.data.member("optimization_score"), Some(&JsonValue::Int(100)));
}

#[test]
fn the_last_registration_of_a_name_wins() {
    let mut registry = MCPToolRegistry::empty();
    registry.register(Box::new(Echo { name: "echo", reply: "first" }));
    registry.register(Box::new(Echo { name: "other", reply: "other" }));
    registry.register(Box::new(Echo { name: "echo", reply: "second" }));
    assert_eq!(registry.list(), vec!["echo", "other"]);
    assert_eq!(reply_of(&registry, "echo"), JsonValue::Str("second".to_string()));
    assert_eq!(reply_of(&registry, "other"), JsonValue::Str("other".to_string()));
    let found = registry.get("echo").unwrap();
    assert_eq!(
        found.execute(&ToolParameters::new()).data,
        JsonValue::Str("second".to_string())
    );
}

#[test]
fn a_default_tool_can_be_replaced() {
    let mut registry = MCPToolRegistry::new();
    registry.register(Box::new(Echo { name: "security_audit", reply: "mine" }));
    assert_eq!(registry.list(), vec!["openzeppelin_contracts", "security_audit", "gas_optimization"]);
    assert_eq!(reply_of(&registry, "security_audit"), JsonValue::Str("mine".to_string()));
    assert_eq!(
        registry.get("security_audit").unwrap().description(),
        "Answers with a fixed text"
    );
}

#[test]
fn dispatch_gives_the_same_result_twice() {
    let registry = MCPToolRegistry::new();
    let mut params = ToolParameters::new();
    params.insert("code", JsonValue::Str("for (i++) a.length public string x".to_string()));
    for name in ["openzeppelin_contracts", "security_audit", "gas_optimization", "missing"] {
        assert_eq!(registry.execute(name, &params), registry.execute(name, &params));
    }
}
