use structured_output::{
    admit_structured_response, call_start, sha256_bytes, LlmResponse, StructuredCallStart,
    StructuredOutputError, ToolCallRequest, Usage,
};

#[derive(Debug, PartialEq, Eq)]
struct FixtureResult {
    answer: String,
    count: u32,
}

/// Parses `{"answer": <string>, "count": <u32>}` as the fixture's typed contract.
fn parse_fixture(raw: &String) -> Result<FixtureResult, String> {
    let value: serde_json::Value = serde_json::from_str(raw).map_err(|e| e.to_string())?;
    let answer = value
        .get("answer")
        .and_then(|a| a.as_str())
        .ok_or_else(|| "invalid or missing field `answer`, expected a string".to_string())?
        .to_string();
    let count = value
        .get("count")
        .and_then(|c| c.as_u64())
        .and_then(|c| u32::try_from(c).ok())
        .ok_or_else(|| "invalid or missing field `count`, expected u32".to_string())?;
    Ok(FixtureResult { answer, count })
}

fn tool_call(name: &str, arguments: &str) -> ToolCallRequest {
    ToolCallRequest {
        id: "call-1".to_string(),
        name: name.to_string(),
        arguments: arguments.to_string(),
    }
}

fn start() -> StructuredCallStart {
    StructuredCallStart {
        call_id: "structured-test".to_string(),
        provider: "test-provider".to_string(),
        model: "test-model".to_string(),
        config_sha256: "sha256:config".to_string(),
        messages_sha256: "sha256:messages".to_string(),
        output_schema_sha256: "sha256:schema".to_string(),
    }
}

#[test]
fn admits_expected_tool_call_and_binds_call_evidence() {
    let raw = r#"{"answer":"yes","count":2}"#;
    let output = admit_structured_response(
        LlmResponse::ToolCalls(vec![tool_call("emit_fixture", raw)]),
        "emit_fixture",
        None,
        start(),
        parse_fixture,
    )
    .unwrap();

    assert_eq!(
        output.value,
        FixtureResult {
            answer: "yes".to_string(),
            count: 2,
        }
    );
    assert_eq!(output.raw_arguments, raw);
    assert!(output.usage.is_none());
    assert_eq!(output.receipt.call_id, "structured-test");
    assert_eq!(output.receipt.provider, "test-provider");
    assert_eq!(output.receipt.model, "test-model");
    assert_eq!(output.receipt.response_tool_call_id, "call-1");
    assert_eq!(
        output.receipt.response_arguments_sha256,
        sha256_bytes(raw.as_bytes())
    );
}

#[test]
fn call_evidence_changes_when_messages_change() {
    let config = br#"{"provider":"ollama","model":"fixture-model"}"#.to_vec();
    let tool =
        br#"{"name":"emit_fixture","description":"fixture","parameters":{"type":"object"}}"#
            .to_vec();
    let messages_a = br#"[{"role":"user","content":"A","tool_call_id":null,"tool_name":null,"tool_calls":null}]"#.to_vec();
    let messages_b = br#"[{"role":"user","content":"B","tool_call_id":null,"tool_name":null,"tool_calls":null}]"#.to_vec();
    let a = call_start(
        [7u8; 16],
        "ollama",
        "fixture-model",
        Ok(config.clone()),
        Ok(messages_a),
        Ok(tool.clone()),
    )
    .unwrap();
    let b = call_start(
        [9u8; 16],
        "ollama",
        "fixture-model", Ok(config), Ok(messages_b), Ok(tool)).unwrap();
    assert_ne!(a.messages_sha256, b.messages_sha256);
    assert_eq!(a.output_schema_sha256, b.output_schema_sha256);
    assert_eq!(a.config_sha256, b.config_sha256);
    assert_ne!(a.call_id, b.call_id);
}

#[test]
fn refuses_tool_calls_that_do_not_include_expected_channel() {
    let err = admit_structured_response(
        LlmResponse::ToolCalls(vec![tool_call("other_tool", r#"{"answer":"yes","count":2}"#)]),
        "emit_fixture",
        None,
        start(),
        parse_fixture,
    )
    .unwrap_err();

    assert!(matches!(
        err,
        StructuredOutputError::ToolNotCalled { ref expected, ref actual }
            if expected == "emit_fixture" && actual == &vec!["other_tool".to_string()]
    ));
}

#[test]
fn refuses_text_when_structured_output_was_requested() {
    let err = admit_structured_response(
        LlmResponse::Text("plain text".to_string()),
        "emit_fixture",
        None,
        start(),
        parse_fixture,
    )
    .unwrap_err();

    assert!(matches!(
        err,
        StructuredOutputError::ExpectedToolCallGotText { ref expected, ref text }
            if expected == "emit_fixture" && text == "plain text"
    ));
}

#[test]
fn refuses_empty_response() {
    let err = admit_structured_response(
        LlmResponse::Empty,
        "emit_fixture",
        None,
        start(),
        parse_fixture,
    )
    .unwrap_err();

    assert!(matches!(err, StructuredOutputError::EmptyResponse));
}

#[test]
fn refuses_arguments_that_do_not_match_typed_contract() {
    let raw = r#"{"answer":"yes","count":"two"}"#;
    let err = admit_structured_response(
        LlmResponse::ToolCalls(vec![tool_call("emit_fixture", raw)]),
        "emit_fixture",
        None,
        start(),
        parse_fixture,
    )
    .unwrap_err();

    assert!(matches!(
        err,
        StructuredOutputError::ParseArguments { ref tool, raw: ref seen, .. }
            if tool == "emit_fixture" && seen == raw
    ));
}

#[test]
fn admits_first_call_to_expected_channel() {
    let first = ToolCallRequest {
        id: "call-first".to_string(),
        name: "emit_fixture".to_string(),
        arguments: r#"{"answer":"first","count":1}"#.to_string(),
    };
    let second = ToolCallRequest {
        id: "call-second".to_string(),
        name: "emit_fixture".to_string(),
        arguments: r#"{"answer":"second","count":2}"#.to_string(),
    };
    let usage = Usage {
        input_tokens: 11,
        output_tokens: 5,
    };
    let output = admit_structured_response(
        LlmResponse::ToolCalls(vec![tool_call("other_tool", "{}"), first, second]),
        "emit_fixture",
        Some(usage),
        start(),
        parse_fixture,
    )
    .unwrap();
    assert_eq!(output.value.answer, "first");
    assert_eq!(output.receipt.response_tool_call_id, "call-first");
    assert_eq!(output.usage, Some(usage));
    assert_eq!(output.receipt.config_sha256, "sha256:config");
    assert_eq!(output.receipt.messages_sha256, "sha256:messages");
    assert_eq!(output.receipt.output_schema_sha256, "sha256:schema");
}

#[test]
fn tool_not_called_lists_every_called_tool_in_order() {
    let err = admit_structured_response(
        LlmResponse::ToolCalls(vec![tool_call("a", "{}"), tool_call("b", "{}"), tool_call("a", "{}")]),
        "emit_fixture",
        None,
        start(),
        parse_fixture,
    )
    .unwrap_err();
    assert_eq!(
        err,
        StructuredOutputError::ToolNotCalled {
            expected: "emit_fixture".to_string(),
            actual: vec!["a".to_string(), "b".to_string(), "a".to_string()],
        }
    );
}

#[test]
fn refuses_empty_tool_call_list() {
    let err = admit_structured_response(
        LlmResponse::ToolCalls(vec![]),
        "emit_fixture",
        None,
        start(),
        parse_fixture,
    )
    .unwrap_err();
    assert_eq!(
        err,
        StructuredOutputError::ToolNotCalled {
            expected: "emit_fixture".to_string(),
            actual: vec![],
        }
    );
}

#[test]
fn parse_failure_carries_parser_message() {
    let err = admit_structured_response(
        LlmResponse::ToolCalls(vec![tool_call("emit_fixture", "not json")]),
        "emit_fixture",
        None,
        start(),
        |_raw: &String| -> Result<FixtureResult, String> { Err("bad shape".to_string()) },
    )
    .unwrap_err();
    assert_eq!(
        err,
        StructuredOutputError::ParseArguments {
            tool: "emit_fixture".to_string(),
            error: "bad shape".to_string(),
            raw: "not json".to_string(),
        }
    );
}
