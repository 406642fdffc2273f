use structured_output::{emit_perspectives_tool, name_theme_tool, score_candidate_tool, JsonValue};

#[test]
fn score_candidate_tool_def_has_required_fields() {
    let tool = score_candidate_tool();
    assert_eq!(tool.name, "zirkel_score_candidate");
    let required = tool
        .parameters
        .get("required")
        .and_then(|v| v.as_array())
        .unwrap()
        .iter()
        .map(|v| v.as_str().unwrap().to_string())
        .collect::<Vec<_>>();
    assert!(required.contains(&"score".to_string()));
    assert!(required.contains(&"why_surfaced".to_string()));
    assert!(required.contains(&"matched_keyword".to_string()));
}

#[test]
fn name_theme_tool_def_requires_name() {
    let tool = name_theme_tool();
    assert_eq!(tool.name, "zirkel_name_theme");
    let required = tool
        .parameters
        .get("required")
        .and_then(|v| v.as_array())
        .unwrap();
    assert_eq!(required.len(), 1);
    assert_eq!(required[0].as_str().unwrap(), "name");
}

#[test]
fn emit_perspectives_tool_def_caps_at_max() {
    let tool = emit_perspectives_tool(4);
    assert_eq!(tool.name, "zirkel_emit_perspectives");
    let max_items = tool
        .parameters
        .get("properties")
        .and_then(|v| v.get("perspectives"))
        .and_then(|v| v.get("maxItems"))
        .and_then(|v| v.as_u64())
        .unwrap();
    assert_eq!(max_items, 4);
    let required = tool
        .parameters
        .get("required")
        .and_then(|v| v.as_array())
        .unwrap();
    assert_eq!(required.len(), 1);
    assert_eq!(required[0].as_str().unwrap(), "perspectives");
}

#[test]
fn emit_perspectives_tool_raises_zero_cap_to_one() {
    let tool = emit_perspectives_tool(0);
    let max_items = tool
        .parameters
        .get("properties")
        .and_then(|v| v.get("perspectives"))
        .and_then(|v| v.get("maxItems"))
        .and_then(|v| v.as_u64());
    assert_eq!(max_items, Some(1));
    assert!(tool.description.starts_with("Return up to 1 short noun-phrase perspective labels"));
}

#[test]
fn emit_perspectives_descriptions_render_cap_in_decimal() {
    let tool = emit_perspectives_tool(120);
    assert_eq!(
        tool.description,
        "Return up to 120 short noun-phrase perspective labels for the given topic, each grounded in the supplied section headings. Each label must be a 2-5 word noun phrase that names a distinct angle on the topic. You MUST call this tool. Do not respond with text or quotes."
    );
    let description = tool
        .parameters
        .get("properties")
        .and_then(|v| v.get("perspectives"))
        .and_then(|v| v.get("description"))
        .and_then(|v| v.as_str())
        .unwrap();
    assert!(description.starts_with("Up to 120 distinct perspective labels. No duplicates."));
}

#[test]
fn score_candidate_tool_bounds_score() {
    let tool = score_candidate_tool();
    let score = tool
        .parameters
        .get("properties")
        .and_then(|v| v.get("score"))
        .unwrap();
    assert_eq!(score.get("type").and_then(|v| v.as_str()), Some("integer"));
    assert_eq!(score.get("minimum").and_then(|v| v.as_u64()), Some(0));
    assert_eq!(score.get("maximum").and_then(|v| v.as_u64()), Some(100));
    assert!(tool.description.starts_with("Return a structured relevance score"));
}

#[test]
fn json_lookups_refuse_other_shapes() {
    let tool = name_theme_tool();
    assert!(tool.parameters.get("missing").is_none());
    assert!(tool.parameters.as_array().is_none());
    assert!(tool.parameters.as_str().is_none());
    assert!(tool.parameters.as_u64().is_none());
    let name = tool
        .parameters
        .get("properties")
        .and_then(|v| v.get("name"))
        .unwrap();
    assert!(name.get("type").and_then(|v| v.get("x")).is_none());
}

#[test]
fn json_integers_read_back_as_held() {
    let negative = JsonValue::Negative(-3);
    assert_eq!(negative.as_i64(), Some(-3));
    assert_eq!(negative.as_u64(), None);
    let large = JsonValue::Number(u64::MAX);
    assert_eq!(large.as_u64(), Some(u64::MAX));
    assert_eq!(large.as_i64(), None);
    assert_eq!(JsonValue::Number(7).as_i64(), Some(7));
}
