use alaya_agent::agent::tools::{ToolExecutorError, ToolResult};

#[test]
fn tool_errors_describe_themselves() {
    let missing = ToolExecutorError::ToolNotFound("read_file".to_string());
    let failed = ToolExecutorError::ExecutionError("disk full".to_string());

    assert_eq!(missing.describe(), "Tool not found: read_file");
    assert_eq!(failed.describe(), "Execution error: disk full");
}

#[test]
fn tool_results_keep_their_call_id() {
    let result = ToolResult {
        id: "call_1".to_string(),
        success: true,
        output: serde_json::Value::String("ok".to_string()),
    };
    let copy = result.clone();

    assert_eq!(copy.id, "call_1");
    assert!(copy.success);
    assert_eq!(copy.output, serde_json::Value::String("ok".to_string()));
}
