//! Structured-output call evidence and response admission.
//!
//! A structured call asks a provider to answer through one schema-bearing tool
//! (the output channel). Admission checks the provider's response against that
//! channel, hands the raw JSON arguments to the caller's parser, and binds the
//! result to a receipt of digests computed before the call.

use vstd::prelude::*;
use vstd::string::StringExecFns;
use vstd::utf8::encode_utf8;

use crate::conversation::{LlmResponse, ToolCallRequest, Usage};
use crate::evidence::{
    hex_spec, is_lower_hex_char, sha256_digest, lemma_hex_injective, lemma_hex_shape, nibble_char, sha256_bytes,
    sha256_text,
};

verus! {

/// Evidence for one bounded structured call and its admitted result.
#[derive(Clone, Debug, PartialEq, Eq)]
pub struct StructuredCallReceipt {
    /// Locally minted identity for this bounded structured call.
    pub call_id: String,
    pub provider: String,
    pub model: String,
    /// Digest of the serialized model configuration.
    pub config_sha256: String,
    /// Digest of the serialized message slice handed to the provider.
    pub messages_sha256: String,
    /// Digest of the serialized schema-bearing tool definition.
    pub output_schema_sha256: String,
    /// Provider-returned id of the admitted tool call.
    pub response_tool_call_id: String,
    /// Digest of the raw JSON argument text before typed parsing.
    pub response_arguments_sha256: String,
}

/// The part of a receipt that is fixed before the provider is called.
#[derive(Clone, Debug)]
pub struct StructuredCallStart {
    pub call_id: String,
    pub provider: String,
    pub model: String,
    pub config_sha256: String,
    pub messages_sha256: String,
    pub output_schema_sha256: String,
}

/// Typed structured result plus the exact raw argument text, provider-reported
/// usage and call evidence.
#[derive(Debug)]
pub struct StructuredOutput<T> {
    pub value: T,
    pub raw_arguments: String,
    pub usage: Option<Usage>,
    pub receipt: StructuredCallReceipt,
}

/// Failure modes for one structured-output model call.
#[derive(Clone, Debug, PartialEq, Eq)]
pub enum StructuredOutputError {
    /// The provider call itself failed; holds the provider error's message.
    Llm(String),
    /// Request evidence could not be serialized; holds the serializer's message.
    Evidence(String),
    ExpectedToolCallGotText { expected: String, text: String },
    EmptyResponse,
    ToolNotCalled { expected: String, actual: Vec<String> },
    ParseArguments { tool: String, error: String, raw: String },
}

/// A `v4` UUID in hyphenated lower-case form: 36 characters, hyphens at 8, 13, 18
/// and 23, version digit `4` at 14, variant digit `8`, `9`, `a` or `b` at 19, and
/// lower-case hexadecimal digits elsewhere.
pub open spec fn is_v4_uuid_text(s: Seq<char>) -> bool {
    &&& s.len() == 36
    &&& forall|i: int|
        0 <= i < 36 ==> if i == 8 || i == 13 || i == 18 || i == 23 {
            #[trigger] s[i] == '-'
        } else {
            is_lower_hex_char(s[i])
        }
    &&& s[14] == '4'
    &&& (s[19] == '8' || s[19] == '9' || s[19] == 'a' || s[19] == 'b')
}

/// A call id: `structured-` followed by a hyphenated `v4` UUID.
pub open spec fn is_structured_call_id(id: Seq<char>) -> bool {
    &&& id.len() == 47
    &&& id.subrange(0, 11) == "structured-"@
    &&& is_v4_uuid_text(id.subrange(11, 47))
}

/// The 16 bytes of the version-4 UUID made from `random`: the high nibble of byte 6 becomes
/// the version `4`, and the top two bits of byte 8 become the variant `10`.
pub open spec fn v4_uuid_bytes(random: Seq<u8>) -> Seq<u8> {
    random.update(6, (random[6] & 0x0f) | 0x40).update(8, (random[8] & 0x3f) | 0x80)
}

/// 32 hexadecimal digits grouped 8-4-4-4-12 with hyphens between the groups.
pub open spec fn hyphenated(h: Seq<char>) -> Seq<char> {
    h.subrange(0, 8) + seq!['-'] + h.subrange(8, 12) + seq!['-'] + h.subrange(12, 16) + seq!['-']
        + h.subrange(16, 20) + seq!['-'] + h.subrange(20, 32)
}

/// The hyphenated lower-case text of the version-4 UUID made from `random`.
pub open spec fn v4_uuid_text(random: Seq<u8>) -> Seq<char> {
    hyphenated(hex_spec(v4_uuid_bytes(random)))
}

/// Calls `uuid::Builder::from_random_bytes(random).into_uuid()` and renders it with `to_string`.
/// Trusted: in the uuid source, `from_random_bytes` keeps the bytes except that `with_version`
/// sets byte 6 to `(b & 0x0f) | 0x40` and `with_variant` sets byte 8 to `(b & 0x3f) | 0x80`;
/// `Display` renders the bytes as lower-case hexadecimal grouped 8-4-4-4-12 with hyphens.
/// These calls do not panic.
#[verifier::external_body]
fn v4_uuid_from_random_bytes(random: [u8; 16]) -> (text: String)
    ensures
        text@ == v4_uuid_text(random@),
{
    uuid::Builder::from_random_bytes(random).into_uuid().to_string()
}

proof fn lemma_hyphenated_index(h: Seq<char>)
    requires
        h.len() == 32,
    ensures
        hyphenated(h).len() == 36,
        forall|i: int| 0 <= i < 8 ==> #[trigger] hyphenated(h)[i] == h[i],
        forall|i: int| 9 <= i < 13 ==> #[trigger] hyphenated(h)[i] == h[i - 1],
        forall|i: int| 14 <= i < 18 ==> #[trigger] hyphenated(h)[i] == h[i - 2],
        forall|i: int| 19 <= i < 23 ==> #[trigger] hyphenated(h)[i] == h[i - 3],
        forall|i: int| 24 <= i < 36 ==> #[trigger] hyphenated(h)[i] == h[i - 4],
        hyphenated(h)[8] == '-' && hyphenated(h)[13] == '-' && hyphenated(h)[18] == '-'
            && hyphenated(h)[23] == '-',
{
}

/// Law: the text made from any 16 random bytes is a hyphenated lower-case v4 UUID.
pub proof fn lemma_v4_uuid_text_shape(random: Seq<u8>)
    requires
        random.len() == 16,
    ensures
        is_v4_uuid_text(v4_uuid_text(random)),
{
    let b = v4_uuid_bytes(random);
    let h = hex_spec(b);
    lemma_hex_shape(b);
    lemma_hyphenated_index(h);
    let t = hyphenated(h);
    assert forall|i: int| 0 <= i < 36 implies if i == 8 || i == 13 || i == 18 || i == 23 {
        #[trigger] t[i] == '-'
    } else {
        is_lower_hex_char(t[i])
    } by {
        if i < 8 {
            assert(is_lower_hex_char(h[i]));
        } else if 9 <= i < 13 {
            assert(is_lower_hex_char(h[i - 1]));
        } else if 14 <= i < 18 {
            assert(is_lower_hex_char(h[i - 2]));
        } else if 19 <= i < 23 {
            assert(is_lower_hex_char(h[i - 3]));
        } else if 24 <= i {
            assert(is_lower_hex_char(h[i - 4]));
        }
    }
    let r6 = random[6];
    let r8 = random[8];
    assert(((r6 & 0x0f) | 0x40) / 16 == 4) by (bit_vector);
    assert(8 <= ((r8 & 0x3f) | 0x80) / 16 <= 11) by (bit_vector);
    assert(t[14] == h[12]);
    assert(h[12] == nibble_char((b[6] / 16) as int));
    assert(t[19] == h[16]);
    assert(h[16] == nibble_char((b[8] / 16) as int));
}

/// Law: two UUID texts are equal exactly when the version-4 bytes they render are equal.
pub proof fn lemma_v4_uuid_text_injective(r1: Seq<u8>, r2: Seq<u8>)
    requires
        r1.len() == 16,
        r2.len() == 16,
    ensures
        v4_uuid_text(r1) == v4_uuid_text(r2) <==> v4_uuid_bytes(r1) == v4_uuid_bytes(r2),
{
    let h1 = hex_spec(v4_uuid_bytes(r1));
    let h2 = hex_spec(v4_uuid_bytes(r2));
    if v4_uuid_text(r1) == v4_uuid_text(r2) {
        lemma_hex_shape(v4_uuid_bytes(r1));
        lemma_hex_shape(v4_uuid_bytes(r2));
        lemma_hyphenated_index(h1);
        lemma_hyphenated_index(h2);
        assert forall|k: int| 0 <= k < 32 implies h1[k] == h2[k] by {
            let t = v4_uuid_text(r1);
            if k < 8 {
                assert(t[k] == h1[k] && t[k] == h2[k]);
            } else if k < 12 {
                assert(t[k + 1] == h1[k] && t[k + 1] == h2[k]);
            } else if k < 16 {
                assert(t[k + 2] == h1[k] && t[k + 2] == h2[k]);
            } else if k < 20 {
                assert(t[k + 3] == h1[k] && t[k + 3] == h2[k]);
            } else {
                assert(t[k + 4] == h1[k] && t[k + 4] == h2[k]);
            }
        }
        assert(h1 =~= h2);
        lemma_hex_injective(v4_uuid_bytes(r1), v4_uuid_bytes(r2));
    }
}

/// The digest of serialized evidence, or the serializer's message.
pub open spec fn evidence_digest(serialized: Result<Vec<u8>, String>) -> Result<Seq<char>, Seq<char>> {
    match serialized {
        Ok(bytes) => Ok(sha256_text(bytes@)),
        Err(message) => Err(message@),
    }
}

/// Digests the JSON serialization of a request value; a serialization failure becomes
/// `Evidence` with the serializer's message.
pub fn sha256_json(serialized: Result<Vec<u8>, String>) -> (r: Result<String, StructuredOutputError>)
    ensures
        match evidence_digest(serialized) {
            Ok(d) => r matches Ok(s) && s@ == d,
            Err(m) => r matches Err(StructuredOutputError::Evidence(e)) && e@ == m,
        },
        serialized matches Ok(bytes) ==> r matches Ok(s) && s@ == sha256_text(bytes@),
{
    match serialized {
        Ok(bytes) => Ok(sha256_bytes(bytes.as_slice())),
        Err(message) => Err(StructuredOutputError::Evidence(message)),
    }
}

/// Names the call `structured-<uuid>`, where `<uuid>` is the version-4 UUID made from the
/// freshly drawn `random` bytes, and digests the serialized model configuration, message
/// slice and output tool, in that order; the first serialization failure is returned as
/// `Evidence`.
pub fn call_start(
    random: [u8; 16],
    provider: &str,
    model: &str,
    config_json: Result<Vec<u8>, String>,
    messages_json: Result<Vec<u8>, String>,
    tool_json: Result<Vec<u8>, String>,
) -> (r: Result<StructuredCallStart, StructuredOutputError>)
    ensures
        match (evidence_digest(config_json), evidence_digest(messages_json), evidence_digest(tool_json)) {
            (Err(m), _, _) => r matches Err(StructuredOutputError::Evidence(e)) && e@ == m,
            (Ok(_), Err(m), _) => r matches Err(StructuredOutputError::Evidence(e)) && e@ == m,
            (Ok(_), Ok(_), Err(m)) => r matches Err(StructuredOutputError::Evidence(e)) && e@ == m,
            (Ok(c), Ok(m), Ok(t)) => r matches Ok(s) && {
                &&& s.call_id@ == "structured-"@ + v4_uuid_text(random@)
                &&& is_structured_call_id(s.call_id@)
                &&& s.provider@ == provider@
                &&& s.model@ == model@
                &&& s.config_sha256@ == c
                &&& s.messages_sha256@ == m
                &&& s.output_schema_sha256@ == t
            },
        },
        r matches Ok(s) ==> {
            &&& config_json matches Ok(c) && s.config_sha256@ == sha256_text(c@)
            &&& messages_json matches Ok(m) && s.messages_sha256@ == sha256_text(m@)
            &&& tool_json matches Ok(t) && s.output_schema_sha256@ == sha256_text(t@)
        },
{
    let uuid = v4_uuid_from_random_bytes(random);
    let mut call_id = "structured-".to_owned();
    call_id.append(uuid.as_str());
    proof {
        reveal_strlit("structured-");
        lemma_v4_uuid_text_shape(random@);
        assert(call_id@.subrange(0, 11) =~= "structured-"@);
        assert(call_id@.subrange(11, 47) =~= uuid@);
    }
    let config_sha256 = match sha256_json(config_json) {
        Ok(d) => d,
        Err(e) => {
            return Err(e);
        },
    };
    let messages_sha256 = match sha256_json(messages_json) {
        Ok(d) => d,
        Err(e) => {
            return Err(e);
        },
    };
    let output_schema_sha256 = match sha256_json(tool_json) {
        Ok(d) => d,
        Err(e) => {
            return Err(e);
        },
    };
    Ok(StructuredCallStart {
        call_id,
        provider: provider.to_owned(),
        model: model.to_owned(),
        config_sha256,
        messages_sha256,
        output_schema_sha256,
    })
}

/// `calls[i]` is the first call whose tool name is `name`.
pub open spec fn is_first_call_named(calls: Seq<ToolCallRequest>, name: Seq<char>, i: int) -> bool {
    &&& 0 <= i < calls.len()
    &&& calls[i].name@ == name
    &&& forall|j: int| 0 <= j < i ==> calls[j].name@ != name
}

/// Some call is to the tool `name`.
pub open spec fn has_call_named(calls: Seq<ToolCallRequest>, name: Seq<char>) -> bool {
    exists|i: int| 0 <= i < calls.len() && calls[i].name@ == name
}

/// The index of the first call to the tool `name` (meaningful when there is one).
pub open spec fn first_call_named(calls: Seq<ToolCallRequest>, name: Seq<char>) -> int {
    choose|i: int| is_first_call_named(calls, name, i)
}

/// The tool names of the calls, in order.
pub open spec fn call_names(calls: Seq<ToolCallRequest>) -> Seq<String> {
    calls.map_values(|c: ToolCallRequest| c.name)
}

/// The receipt binds the pre-call evidence of `start`, the admitted call's id, and the
/// digest of the UTF-8 bytes of its raw argument text.
pub open spec fn receipt_binds(
    receipt: StructuredCallReceipt,
    start: StructuredCallStart,
    call_id: String,
    arguments: String,
) -> bool {
    &&& receipt.call_id == start.call_id
    &&& receipt.provider == start.provider
    &&& receipt.model == start.model
    &&& receipt.config_sha256 == start.config_sha256
    &&& receipt.messages_sha256 == start.messages_sha256
    &&& receipt.output_schema_sha256 == start.output_schema_sha256
    &&& receipt.response_tool_call_id == call_id
    &&& receipt.response_arguments_sha256@ == sha256_text(encode_utf8(arguments@))
}

proof fn lemma_first_call_unique(calls: Seq<ToolCallRequest>, name: Seq<char>, i: int)
    requires
        is_first_call_named(calls, name, i),
    ensures
        has_call_named(calls, name),
        first_call_named(calls, name) == i,
{
    let k = first_call_named(calls, name);
    assert(is_first_call_named(calls, name, k));
    if k < i {
        assert(calls[k].name@ != name);
    }
    if i < k {
        assert(calls[i].name@ != name);
    }
}

fn find_tool_call(calls: &Vec<ToolCallRequest>, expected: &String) -> (r: Option<usize>)
    ensures
        match r {
            Some(i) => is_first_call_named(calls@, expected@, i as int),
            None => !has_call_named(calls@, expected@),
        },
{
    let n = calls.len();
    let mut i: usize = 0;
    while i < n
        invariant
            n == calls@.len(),
            i <= n,
            forall|j: int| 0 <= j < i ==> calls@[j].name@ != expected@,
        decreases n - i,
    {
        if calls[i].name == *expected {
            return Some(i);
        }
        i = i + 1;
    }
    None
}

fn tool_call_names(calls: &Vec<ToolCallRequest>) -> (names: Vec<String>)
    ensures
        names@ == call_names(calls@),
{
    let n = calls.len();
    let mut names: Vec<String> = Vec::new();
    let mut i: usize = 0;
    while i < n
        invariant
            n == calls@.len(),
            i <= n,
            names@.len() == i,
            forall|j: int| 0 <= j < i ==> names@[j] == calls@[j].name,
        decreases n - i,
    {
        names.push(calls[i].name.clone());
        i = i + 1;
    }
    assert(names@ =~= call_names(calls@));
    names
}

/// Admits one already-received provider response through the structured-output contract.
///
/// A text or empty response is refused. Among tool calls, the first call to
/// `expected_tool` is chosen; if there is none, the error lists every called tool name.
/// The chosen call's raw argument text is handed to `parse`; a parse failure is refused
/// with the parser's message and the raw text. On success the output carries the parsed
/// value, the raw text, `usage` unchanged, and a receipt bound to `start` and to the call.
pub fn admit_structured_response<T, F: Fn(&String) -> Result<T, String>>(
    response: LlmResponse,
    expected_tool: &str,
    usage: Option<Usage>,
    start: StructuredCallStart,
    parse: F,
) -> (r: Result<StructuredOutput<T>, StructuredOutputError>)
    requires
        forall|raw: &String| parse.requires((raw,)),
    ensures
        match response {
            LlmResponse::Empty => r matches Err(StructuredOutputError::EmptyResponse),
            LlmResponse::Text(text) => r matches Err(
                StructuredOutputError::ExpectedToolCallGotText { expected, text: t },
            ) && expected@ == expected_tool@ && t == text,
            LlmResponse::ToolCalls(calls) => if !has_call_named(calls@, expected_tool@) {
                r matches Err(StructuredOutputError::ToolNotCalled { expected, actual })
                    && expected@ == expected_tool@ && actual@ == call_names(calls@)
            } else {
                let call = calls@[first_call_named(calls@, expected_tool@)];
                match r {
                    Ok(out) => {
                        &&& parse.ensures((&call.arguments,), Ok(out.value))
                        &&& out.raw_arguments == call.arguments
                        &&& out.usage == usage
                        &&& receipt_binds(out.receipt, start, call.id, call.arguments)
                        &&& out.receipt.response_arguments_sha256@.len() == 71
                    },
                    Err(StructuredOutputError::ParseArguments { tool, error, raw }) => {
                        &&& parse.ensures((&call.arguments,), Err(error))
                        &&& tool@ == expected_tool@
                        &&& raw == call.arguments
                    },
                    Err(_) => false,
                }
            },
        },
        r matches Err(StructuredOutputError::ToolNotCalled { expected, actual }) ==> {
            &&& response matches LlmResponse::ToolCalls(calls)
            &&& expected@ == expected_tool@
            &&& forall|j: int| 0 <= j < calls@.len() ==> #[trigger] calls@[j].name@ != expected_tool@
            &&& actual@.len() == calls@.len()
            &&& forall|j: int| 0 <= j < calls@.len() ==> #[trigger] actual@[j] == calls@[j].name
        },
        r matches Ok(out) ==> {
            &&& response matches LlmResponse::ToolCalls(calls)
            &&& exists|i: int|
                {
                    &&& 0 <= i < calls@.len()
                    &&& #[trigger] calls@[i].name@ == expected_tool@
                    &&& forall|j: int| 0 <= j < i ==> calls@[j].name@ != expected_tool@
                    &&& parse.ensures((&calls@[i].arguments,), Ok(out.value))
                    &&& out.raw_arguments == calls@[i].arguments
                    &&& out.receipt.response_tool_call_id == calls@[i].id
                    &&& out.receipt.response_arguments_sha256@ == "sha256:"@ + hex_spec(
                        sha256_digest(encode_utf8(calls@[i].arguments@)),
                    )
                }
            &&& out.usage == usage
            &&& out.receipt.call_id == start.call_id
            &&& out.receipt.provider == start.provider
            &&& out.receipt.model == start.model
            &&& out.receipt.config_sha256 == start.config_sha256
            &&& out.receipt.messages_sha256 == start.messages_sha256
            &&& out.receipt.output_schema_sha256 == start.output_schema_sha256
        },
{
    match response {
        LlmResponse::ToolCalls(calls) => {
            let actual = tool_call_names(&calls);
            let expected = expected_tool.to_owned();
            match find_tool_call(&calls, &expected) {
                None => Err(StructuredOutputError::ToolNotCalled { expected, actual }),
                Some(i) => {
                    proof {
                        lemma_first_call_unique(calls@, expected_tool@, i as int);
                    }
                    let raw_arguments = calls[i].arguments.clone();
                    match parse(&raw_arguments) {
                        Err(error) => Err(
                            StructuredOutputError::ParseArguments {
                                tool: expected,
                                error,
                                raw: raw_arguments,
                            },
                        ),
                        Ok(value) => {
                            let response_arguments_sha256 = sha256_bytes(
                                raw_arguments.as_str().as_bytes(),
                            );
                            let receipt = StructuredCallReceipt {
                                call_id: start.call_id,
                                provider: start.provider,
                                model: start.model,
                                config_sha256: start.config_sha256,
                                messages_sha256: start.messages_sha256,
                                output_schema_sha256: start.output_schema_sha256,
                                response_tool_call_id: calls[i].id.clone(),
                                response_arguments_sha256,
                            };
                            Ok(StructuredOutput { value, raw_arguments, usage, receipt })
                        },
                    }
                },
            }
        },
        LlmResponse::Text(text) => Err(
            StructuredOutputError::ExpectedToolCallGotText {
                expected: expected_tool.to_owned(),
                text,
            },
        ),
        LlmResponse::Empty => Err(StructuredOutputError::EmptyResponse),
    }
}

/// Law: a receipt admitted from a start that `call_start` minted binds the digests of the
/// serialized configuration, message slice and output tool, a structured call id, the
/// admitted call's provider-returned id, and the digest of the UTF-8 bytes of its raw
/// argument text.
pub proof fn lemma_receipt_binds_call_inputs(
    start: StructuredCallStart,
    receipt: StructuredCallReceipt,
    call: ToolCallRequest,
    config_json: Seq<u8>,
    messages_json: Seq<u8>,
    tool_json: Seq<u8>,
)
    requires
        is_structured_call_id(start.call_id@),
        start.config_sha256@ == sha256_text(config_json),
        start.messages_sha256@ == sha256_text(messages_json),
        start.output_schema_sha256@ == sha256_text(tool_json),
        receipt_binds(receipt, start, call.id, call.arguments),
    ensures
        is_structured_call_id(receipt.call_id@),
        receipt.provider == start.provider,
        receipt.model == start.model,
        receipt.config_sha256@ == sha256_text(config_json),
        receipt.messages_sha256@ == sha256_text(messages_json),
        receipt.output_schema_sha256@ == sha256_text(tool_json),
        receipt.response_tool_call_id@ == call.id@,
        receipt.response_arguments_sha256@ == sha256_text(encode_utf8(call.arguments@)),
{
}

/// Law: two calls get the same call id exactly when their random draws make the same
/// version-4 UUID bytes; draws that differ outside the version and variant bits give
/// different ids.
pub proof fn lemma_call_id_identifies_draw(r1: Seq<u8>, r2: Seq<u8>)
    requires
        r1.len() == 16,
        r2.len() == 16,
    ensures
        ("structured-"@ + v4_uuid_text(r1) == "structured-"@ + v4_uuid_text(r2)) <==> v4_uuid_bytes(r1)
            == v4_uuid_bytes(r2),
{
    let p = "structured-"@;
    let u1 = v4_uuid_text(r1);
    let u2 = v4_uuid_text(r2);
    if p + u1 == p + u2 {
        assert((p + u1).subrange(p.len() as int, (p + u1).len() as int) =~= u1);
        assert((p + u2).subrange(p.len() as int, (p + u2).len() as int) =~= u2);
    }
    lemma_v4_uuid_text_injective(r1, r2);
}

/// Law: the evidence digest of serialized bytes is the SHA-256 digest of all of them,
/// rendered as `sha256:` and hexadecimal; a serialization failure keeps its message.
pub proof fn lemma_evidence_digest_covers_all_bytes(serialized: Result<Vec<u8>, String>)
    ensures
        serialized matches Ok(bytes) ==> evidence_digest(serialized) == Ok::<Seq<char>, Seq<char>>(
            "sha256:"@ + hex_spec(sha256_digest(bytes@)),
        ),
        serialized matches Err(message) ==> evidence_digest(serialized) == Err::<Seq<char>, Seq<char>>(
            message@,
        ),
{
}

} // verus!
