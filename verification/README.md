# structured_output

A verified library for provider-neutral structured model output.

- `src/evidence.rs` — lower-case hex rendering and `sha256:` digest strings (SHA-256 from `sha2`).
- `src/conversation.rs` — messages, roles, provider tool calls and responses; the system + user prompt shape.
- `src/structured.rs` — call evidence (`call_start`), response admission (`admit_structured_response`) and the receipt it binds.
- `src/json.rs`, `src/tool.rs` — JSON values and tool definitions used as schema-bearing output channels.
- `src/synthetic_tool.rs` — the Zirkel output-channel schemas and argument shapes.
- `app/` — serde/thiserror copies of the library types and the async provider call (`complete_structured`).
