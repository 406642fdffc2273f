use structured_output::{
    call_start, format_sha256_digest, hex, prompt_messages, sha256_bytes, sha256_json, Role,
    StructuredOutputError,
};

#[test]
fn hex_renders_two_lower_case_digits_per_byte() {
    assert_eq!(hex(&[]), "");
    assert_eq!(hex(&[0x00, 0x0f, 0xbe, 0xef, 0xff]), "000fbeefff");
    assert_eq!(hex(&[0x10, 0x01]), "1001");
}

#[test]
fn hex_distinguishes_distinct_bytes() {
    assert_ne!(hex(&[0x01, 0x10]), hex(&[0x10, 0x01]));
    assert_ne!(hex(&[0x00]), hex(&[0x00, 0x00]));
}

#[test]
fn sha256_bytes_matches_known_vectors() {
    assert_eq!(
        sha256_bytes(b""),
        "sha256:e3b0c44298fc1c149afbf4c8996fb92427ae41e4649b934ca495991b7852b855"
    );
    assert_eq!(
        sha256_bytes(b"abc"),
        "sha256:ba7816bf8f01cfea414140de5dae2223b00361a396177a9cb410ff61f20015ad"
    );
    assert_eq!(sha256_bytes(b"abc").len(), 71);
}

#[test]
fn format_sha256_digest_prefixes_hex() {
    assert_eq!(format_sha256_digest(&[0xab, 0x01]), "sha256:ab01");
}

#[test]
fn sha256_json_digests_serialized_bytes() {
    assert_eq!(sha256_json(Ok(b"abc".to_vec())).unwrap(), sha256_bytes(b"abc"));
}

#[test]
fn sha256_json_maps_serialization_failure_to_evidence() {
    let err = sha256_json(Err("key must be a string".to_string())).unwrap_err();
    assert_eq!(err, StructuredOutputError::Evidence("key must be a string".to_string()));
}

#[test]
fn call_start_binds_digests_of_each_input() {
    let start = call_start(
        [7u8; 16],
        "test-provider",
        "test-model",
        Ok(b"config".to_vec()),
        Ok(b"messages".to_vec()),
        Ok(b"tool".to_vec()),
    )
    .unwrap();
    assert_eq!(start.provider, "test-provider");
    assert_eq!(start.model, "test-model");
    assert_eq!(start.config_sha256, sha256_bytes(b"config"));
    assert_eq!(start.messages_sha256, sha256_bytes(b"messages"));
    assert_eq!(start.output_schema_sha256, sha256_bytes(b"tool"));
}

#[test]
fn call_start_names_call_after_v4_uuid_of_draw() {
    let zeros = call_start([0u8; 16], "p", "m", Ok(vec![]), Ok(vec![]), Ok(vec![])).unwrap();
    assert_eq!(zeros.call_id, "structured-00000000-0000-4000-8000-000000000000");
    let counting: [u8; 16] = [0, 1, 2, 3, 4, 5, 6, 7, 8, 9, 10, 11, 12, 13, 14, 15];
    let start = call_start(counting, "p", "m", Ok(vec![]), Ok(vec![]), Ok(vec![])).unwrap();
    assert_eq!(start.call_id, "structured-00010203-0405-4607-8809-0a0b0c0d0e0f");
    let ones = call_start([0xffu8; 16], "p", "m", Ok(vec![]), Ok(vec![]), Ok(vec![])).unwrap();
    assert_eq!(ones.call_id, "structured-ffffffff-ffff-4fff-bfff-ffffffffffff");
    assert_eq!(
        ones.call_id,
        format!("structured-{}", uuid::Builder::from_random_bytes([0xffu8; 16]).into_uuid())
    );
    assert_ne!(zeros.call_id, start.call_id);
    assert_eq!(zeros.messages_sha256, start.messages_sha256);
}

#[test]
fn call_start_reports_first_serialization_failure() {
    let err = call_start(
        [7u8; 16],
        "p",
        "m",
        Err("config failed".to_string()),
        Err("messages failed".to_string()),
        Ok(vec![]),
    )
    .unwrap_err();
    assert_eq!(err, StructuredOutputError::Evidence("config failed".to_string()));

    let err = call_start(
        [7u8; 16],
        "p",
        "m",
        Ok(vec![]),
        Ok(vec![]),
        Err("tool failed".to_string()),
    )
    .unwrap_err();
    assert_eq!(err, StructuredOutputError::Evidence("tool failed".to_string()));
}

#[test]
fn prompt_messages_are_system_then_user() {
    let messages = prompt_messages("be brief", "score this");
    assert_eq!(messages.len(), 2);
    assert_eq!(messages[0].role, Role::System);
    assert_eq!(messages[0].content, "be brief");
    assert_eq!(messages[1].role, Role::User);
    assert_eq!(messages[1].content, "score this");
    for m in &messages {
        assert!(m.tool_call_id.is_none());
        assert!(m.tool_name.is_none());
        assert!(m.tool_calls.is_none());
    }
}
