//! Zirkel-specific schema carriers for structured model output: the output-channel
//! tool definitions and the typed argument shapes they describe.
//!
//! The `zirkel_`-prefixed tool names are response-channel identifiers; nothing
//! executes them.

use vstd::prelude::*;
use vstd::string::StringExecFns;

use crate::json::{
    json_get, json_items, json_members, lemma_first_member_unique, lemma_json_items,
    lemma_json_members, lemma_wf_items, lemma_wf_members, wf_members, Json, JsonValue,
};
use crate::tool::ToolDef;
use crate::evidence::string_push;

verus! {

pub const SCORE_CANDIDATE_TOOL: &'static str = "zirkel_score_candidate";

pub const SCORE_CANDIDATE_DESCRIPTION: &'static str = "Return a structured relevance score for the candidate item against the user's interests. You MUST call this tool with the score, why-surfaced rationale, and matched keyword. Do not respond with text.";

pub const SCORE_DESCRIPTION: &'static str = "Relevance score 0–100. 0 = irrelevant. 50 = matches a user interest broadly. 100 = directly addresses a user keyword in a substantive way.";

pub const WHY_SURFACED_DESCRIPTION: &'static str = "One-line rationale (≤140 chars). Cite the matched user interest by name and how the candidate's content relates to it.";

pub const MATCHED_KEYWORD_DESCRIPTION: &'static str = "The single user keyword that best characterizes the match. Must be one of the user keywords provided in the prompt.";

pub const NAME_THEME_TOOL: &'static str = "zirkel_name_theme";

pub const NAME_THEME_DESCRIPTION: &'static str = "Return a 2–5 word theme name for a cluster of related candidates. You MUST call this tool. Do not respond with text or quotes.";

pub const THEME_NAME_DESCRIPTION: &'static str = "2–5 word theme name. Examples: 'FTC enforcement', 'EU AI Act', 'biometric privacy in employment'. No cluster ids, no jargon, no quotes.";

pub const EMIT_PERSPECTIVES_TOOL: &'static str = "zirkel_emit_perspectives";

pub const PERSPECTIVE_LABEL_DESCRIPTION: &'static str = "A 2-5 word noun-phrase label naming one angle on the topic.";

/// A string schema member `{"type": "string", "description": description}`.
pub open spec fn string_property(description: Seq<char>) -> Json {
    Json::Object(seq![("type"@, Json::Str("string"@)), ("description"@, Json::Str(description))])
}

/// The `score` member of `zirkel_score_candidate`'s properties.
pub open spec fn score_property() -> Json {
    Json::Object(
        seq![
            ("type"@, Json::Str("integer"@)),
            ("minimum"@, Json::Number(0)),
            ("maximum"@, Json::Number(100)),
            ("description"@, Json::Str(SCORE_DESCRIPTION@)),
        ],
    )
}

/// The properties of `zirkel_score_candidate`'s arguments.
pub open spec fn score_candidate_properties() -> Seq<(Seq<char>, Json)> {
    seq![
        ("score"@, score_property()),
        ("why_surfaced"@, string_property(WHY_SURFACED_DESCRIPTION@)),
        ("matched_keyword"@, string_property(MATCHED_KEYWORD_DESCRIPTION@)),
    ]
}

/// An object schema with the given properties and required member names.
pub open spec fn object_schema(properties: Seq<(Seq<char>, Json)>, required: Seq<Seq<char>>) -> Json {
    Json::Object(
        seq![
            ("type"@, Json::Str("object"@)),
            ("properties"@, Json::Object(properties)),
            ("required"@, Json::Array(required.map_values(|k: Seq<char>| Json::Str(k)))),
        ],
    )
}

/// The argument schema of `zirkel_score_candidate`.
pub open spec fn score_candidate_schema() -> Json {
    object_schema(
        score_candidate_properties(),
        seq!["score"@, "why_surfaced"@, "matched_keyword"@],
    )
}

fn string_value(s: &str) -> (v: JsonValue)
    ensures
        v.json() == Json::Str(s@),
        v.wf(),
{
    JsonValue::String(s.to_owned())
}

fn string_property_value(description: &str) -> (v: JsonValue)
    ensures
        v.json() == string_property(description@),
        v.wf(),
{
    let mut members: Vec<(String, JsonValue)> = Vec::new();
    members.push(("type".to_owned(), string_value("string")));
    members.push(("description".to_owned(), string_value(description)));
    proof {
        lemma_json_members(members@);
        lemma_wf_members(members@);
        assert(json_members(members@) =~= seq![
            ("type"@, Json::Str("string"@)),
            ("description"@, Json::Str(description@)),
        ]);
    }
    JsonValue::Object(members)
}

/// Tool definition for `zirkel_score_candidate`, the LLM relevance scorer's output
/// channel; its arguments have the shape of `ScoreCandidateArgs`.
pub fn score_candidate_tool() -> (tool: ToolDef)
    ensures
        tool.name@ == SCORE_CANDIDATE_TOOL@,
        tool.description@ == SCORE_CANDIDATE_DESCRIPTION@,
        tool.parameters.json() == score_candidate_schema(),
        tool.parameters.wf(),
{
    let mut score: Vec<(String, JsonValue)> = Vec::new();
    score.push(("type".to_owned(), string_value("integer")));
    score.push(("minimum".to_owned(), JsonValue::Number(0)));
    score.push(("maximum".to_owned(), JsonValue::Number(100)));
    score.push(("description".to_owned(), string_value(SCORE_DESCRIPTION)));
    proof {
        lemma_json_members(score@);
        lemma_wf_members(score@);
        assert(json_members(score@) =~= seq![
            ("type"@, Json::Str("integer"@)),
            ("minimum"@, Json::Number(0)),
            ("maximum"@, Json::Number(100)),
            ("description"@, Json::Str(SCORE_DESCRIPTION@)),
        ]);
    }
    let score = JsonValue::Object(score);
    let mut properties: Vec<(String, JsonValue)> = Vec::new();
    properties.push(("score".to_owned(), score));
    properties.push(("why_surfaced".to_owned(), string_property_value(WHY_SURFACED_DESCRIPTION)));
    properties.push(
        ("matched_keyword".to_owned(), string_property_value(MATCHED_KEYWORD_DESCRIPTION)),
    );
    proof {
        lemma_json_members(properties@);
        lemma_wf_members(properties@);
        assert(json_members(properties@) =~= score_candidate_properties());
    }
    let properties = JsonValue::Object(properties);
    let mut required: Vec<JsonValue> = Vec::new();
    required.push(string_value("score"));
    required.push(string_value("why_surfaced"));
    required.push(string_value("matched_keyword"));
    proof {
        lemma_json_items(required@);
        lemma_wf_items(required@);
        assert(json_items(required@) =~= seq!["score"@, "why_surfaced"@, "matched_keyword"@].map_values(
            |k: Seq<char>| Json::Str(k),
        ));
    }
    let required = JsonValue::Array(required);
    let mut schema: Vec<(String, JsonValue)> = Vec::new();
    schema.push(("type".to_owned(), string_value("object")));
    schema.push(("properties".to_owned(), properties));
    schema.push(("required".to_owned(), required));
    proof {
        lemma_json_members(schema@);
        lemma_wf_members(schema@);
    }
    let parameters = JsonValue::Object(schema);
    proof {
        assert(json_members(schema@) =~= score_candidate_schema()->Object_0);
    }
    ToolDef {
        name: SCORE_CANDIDATE_TOOL.to_owned(),
        description: SCORE_CANDIDATE_DESCRIPTION.to_owned(),
        parameters,
    }
}

/// Output shape for `score_candidate_tool`.
#[derive(Clone, Debug, PartialEq, Eq)]
pub struct ScoreCandidateArgs {
    pub score: u32,
    pub why_surfaced: String,
    pub matched_keyword: String,
}

/// The argument schema of `zirkel_name_theme`.
pub open spec fn name_theme_schema() -> Json {
    object_schema(seq![("name"@, string_property(THEME_NAME_DESCRIPTION@))], seq!["name"@])
}

/// Builds `{"type": "object", "properties": properties, "required": [required]}` for one
/// required member.
fn single_required_schema(properties: Vec<(String, JsonValue)>, required: &str) -> (v: JsonValue)
    requires
        wf_members(properties@),
    ensures
        v.json() == object_schema(json_members(properties@), seq![required@]),
        v.wf(),
{
    let ghost members = properties@;
    let properties = JsonValue::Object(properties);
    let mut names: Vec<JsonValue> = Vec::new();
    names.push(string_value(required));
    proof {
        lemma_json_items(names@);
        lemma_wf_items(names@);
        assert(json_items(names@) =~= seq![required@].map_values(|k: Seq<char>| Json::Str(k)));
    }
    let names = JsonValue::Array(names);
    let mut schema: Vec<(String, JsonValue)> = Vec::new();
    schema.push(("type".to_owned(), string_value("object")));
    schema.push(("properties".to_owned(), properties));
    schema.push(("required".to_owned(), names));
    proof {
        lemma_json_members(schema@);
        lemma_wf_members(schema@);
        assert(json_members(schema@) =~= object_schema(
            json_members(members),
            seq![required@],
        )->Object_0);
    }
    JsonValue::Object(schema)
}

/// Tool definition for `zirkel_name_theme`, the theme naming pass's output channel; its
/// arguments have the shape of `NameThemeArgs`.
pub fn name_theme_tool() -> (tool: ToolDef)
    ensures
        tool.name@ == NAME_THEME_TOOL@,
        tool.description@ == NAME_THEME_DESCRIPTION@,
        tool.parameters.json() == name_theme_schema(),
        tool.parameters.wf(),
{
    let mut properties: Vec<(String, JsonValue)> = Vec::new();
    properties.push(("name".to_owned(), string_property_value(THEME_NAME_DESCRIPTION)));
    proof {
        lemma_json_members(properties@);
        lemma_wf_members(properties@);
        assert(json_members(properties@) =~= seq![("name"@, string_property(THEME_NAME_DESCRIPTION@))]);
    }
    let parameters = single_required_schema(properties, "name");
    ToolDef {
        name: NAME_THEME_TOOL.to_owned(),
        description: NAME_THEME_DESCRIPTION.to_owned(),
        parameters,
    }
}

/// Output shape for `name_theme_tool`.
#[derive(Clone, Debug, PartialEq, Eq)]
pub struct NameThemeArgs {
    pub name: String,
}

/// The decimal digit character for `d < 10`.
pub open spec fn digit_char(d: nat) -> char {
    (d + 48) as char
}

/// The decimal rendering of `n`: no sign, no leading zeros, `0` for zero.
pub open spec fn decimal(n: nat) -> Seq<char>
    decreases n,
{
    if n < 10 {
        seq![digit_char(n)]
    } else {
        decimal(n / 10).push(digit_char(n % 10))
    }
}

/// The number a string of decimal digits denotes.
pub open spec fn decimal_value(s: Seq<char>) -> nat
    decreases s.len(),
{
    if s.len() == 0 {
        0
    } else {
        decimal_value(s.drop_last()) * 10 + ((s.last() as nat) - 48) as nat
    }
}

/// Law: the decimal rendering consists of digits, has no leading zero, and denotes `n`.
pub proof fn lemma_decimal(n: nat)
    ensures
        decimal(n).len() >= 1,
        forall|i: int| 0 <= i < decimal(n).len() ==> '0' <= #[trigger] decimal(n)[i] <= '9',
        n > 0 ==> decimal(n)[0] != '0',
        decimal_value(decimal(n)) == n,
    decreases n,
{
    assert((digit_char(n % 10) as nat) == n % 10 + 48);
    assert(decimal(n).last() == digit_char(n % 10));
    assert(decimal(n).len() > 0);
    assert(decimal_value(decimal(n)) == decimal_value(decimal(n).drop_last()) * 10 + (n % 10));
    if n >= 10 {
        lemma_decimal(n / 10);
        assert(decimal(n).drop_last() =~= decimal(n / 10));
        assert(decimal(n)[0] == decimal(n / 10)[0]);
        assert((n / 10) * 10 + n % 10 == n);
    } else {
        assert(decimal(n).drop_last() =~= Seq::<char>::empty());
    }
}

/// Appends the decimal rendering of `n`.
fn push_decimal(s: &mut String, n: usize)
    ensures
        final(s)@ == old(s)@ + decimal(n as nat),
    decreases n,
{
    if n >= 10 {
        push_decimal(s, n / 10);
    }
    let d = n % 10;
    let c: char = if d == 0 { '0' } else if d == 1 { '1' } else if d == 2 { '2' } else if d == 3 {
        '3'
    } else if d == 4 { '4' } else if d == 5 { '5' } else if d == 6 { '6' } else if d == 7 {
        '7'
    } else if d == 8 { '8' } else { '9' };
    string_push(s, c);
    assert(final(s)@ =~= old(s)@ + decimal(n as nat));
}

pub const EMIT_PERSPECTIVES_LEAD: &'static str = "Return up to ";

pub const EMIT_PERSPECTIVES_REST: &'static str = " short noun-phrase perspective labels for the given topic, each grounded in the supplied section headings. Each label must be a 2-5 word noun phrase that names a distinct angle on the topic. You MUST call this tool. Do not respond with text or quotes.";

pub const PERSPECTIVES_LEAD: &'static str = "Up to ";

pub const PERSPECTIVES_REST: &'static str = " distinct perspective labels. No duplicates. Examples for topic 'biometric privacy': 'employer surveillance', 'consent frameworks', 'state-level enforcement', 'cross-border transfer'.";

/// The perspective cap: `max_perspectives`, but at least one.
pub open spec fn perspective_cap(max_perspectives: nat) -> nat {
    if max_perspectives >= 1 {
        max_perspectives
    } else {
        1
    }
}

/// The description of `zirkel_emit_perspectives` for a cap.
pub open spec fn emit_perspectives_description(cap: nat) -> Seq<char> {
    EMIT_PERSPECTIVES_LEAD@ + decimal(cap) + EMIT_PERSPECTIVES_REST@
}

/// The `perspectives` member of `zirkel_emit_perspectives`'s properties for a cap.
pub open spec fn perspectives_property(cap: nat) -> Json {
    Json::Object(
        seq![
            ("type"@, Json::Str("array"@)),
            ("items"@, string_property(PERSPECTIVE_LABEL_DESCRIPTION@)),
            ("maxItems"@, Json::Number(cap as int)),
            ("description"@, Json::Str(PERSPECTIVES_LEAD@ + decimal(cap) + PERSPECTIVES_REST@)),
        ],
    )
}

/// The argument schema of `zirkel_emit_perspectives` for a cap.
pub open spec fn emit_perspectives_schema(cap: nat) -> Json {
    object_schema(seq![("perspectives"@, perspectives_property(cap))], seq!["perspectives"@])
}

/// `lead`, the decimal rendering of `n`, then `rest`.
fn text_with_number(lead: &str, n: usize, rest: &str) -> (s: String)
    ensures
        s@ == lead@ + decimal(n as nat) + rest@,
{
    let mut s = lead.to_owned();
    push_decimal(&mut s, n);
    s.append(rest);
    s
}

/// Tool definition for `zirkel_emit_perspectives`, the perspective-expansion call's output
/// channel; the model may return at most `max(max_perspectives, 1)` labels. Its arguments
/// have the shape of `EmitPerspectivesArgs`.
pub fn emit_perspectives_tool(max_perspectives: usize) -> (tool: ToolDef)
    ensures
        tool.name@ == EMIT_PERSPECTIVES_TOOL@,
        tool.description@ == emit_perspectives_description(perspective_cap(max_perspectives as nat)),
        tool.parameters.json() == emit_perspectives_schema(perspective_cap(max_perspectives as nat)),
        tool.parameters.wf(),
{
    let cap: usize = if max_perspectives >= 1 { max_perspectives } else { 1 };
    let mut perspectives: Vec<(String, JsonValue)> = Vec::new();
    perspectives.push(("type".to_owned(), string_value("array")));
    perspectives.push(("items".to_owned(), string_property_value(PERSPECTIVE_LABEL_DESCRIPTION)));
    perspectives.push(("maxItems".to_owned(), JsonValue::Number(cap as u64)));
    perspectives.push(
        (
            "description".to_owned(),
            JsonValue::String(text_with_number(PERSPECTIVES_LEAD, cap, PERSPECTIVES_REST)),
        ),
    );
    proof {
        lemma_json_members(perspectives@);
        lemma_wf_members(perspectives@);
        assert(json_members(perspectives@) =~= perspectives_property(cap as nat)->Object_0);
    }
    let mut properties: Vec<(String, JsonValue)> = Vec::new();
    properties.push(("perspectives".to_owned(), JsonValue::Object(perspectives)));
    proof {
        lemma_json_members(properties@);
        lemma_wf_members(properties@);
        assert(json_members(properties@) =~= seq![("perspectives"@, perspectives_property(cap as nat))]);
    }
    let parameters = single_required_schema(properties, "perspectives");
    ToolDef {
        name: EMIT_PERSPECTIVES_TOOL.to_owned(),
        description: text_with_number(EMIT_PERSPECTIVES_LEAD, cap, EMIT_PERSPECTIVES_REST),
        parameters,
    }
}

/// Output shape for `emit_perspectives_tool`.
#[derive(Clone, Debug, PartialEq, Eq)]
pub struct EmitPerspectivesArgs {
    pub perspectives: Vec<String>,
}

/// Every name listed under `required` is a string naming a member of `properties`.
pub open spec fn required_members_declared(schema: Json) -> bool {
    match (json_get(schema, "required"@), json_get(schema, "properties"@)) {
        (Some(Json::Array(required)), Some(properties)) => forall|i: int|
            0 <= i < required.len() ==> (#[trigger] required[i] matches Json::Str(k) && json_get(
                properties,
                k,
            ) is Some),
        _ => false,
    }
}

proof fn lemma_object_schema_lookup(properties: Seq<(Seq<char>, Json)>, required: Seq<Seq<char>>)
    ensures
        json_get(object_schema(properties, required), "type"@) == Some(Json::Str("object"@)),
        json_get(object_schema(properties, required), "properties"@) == Some(Json::Object(properties)),
        json_get(object_schema(properties, required), "required"@) == Some(
            Json::Array(required.map_values(|k: Seq<char>| Json::Str(k))),
        ),
{
    reveal_strlit("type");
    reveal_strlit("properties");
    reveal_strlit("required");
    let members = object_schema(properties, required)->Object_0;
    assert("type"@.len() == 4 && "properties"@.len() == 10 && "required"@.len() == 8);
    lemma_first_member_unique(members, "type"@, 0);
    lemma_first_member_unique(members, "properties"@, 1);
    lemma_first_member_unique(members, "required"@, 2);
}

/// Law: in each Zirkel output schema every required member is a declared property; and
/// the perspectives schema caps the list at `maxItems == cap`.
pub proof fn lemma_schemas_declare_required_members(cap: nat)
    ensures
        required_members_declared(score_candidate_schema()),
        required_members_declared(name_theme_schema()),
        required_members_declared(emit_perspectives_schema(cap)),
        json_get(json_get(emit_perspectives_schema(cap), "properties"@)->Some_0, "perspectives"@)
            == Some(perspectives_property(cap)),
        json_get(perspectives_property(cap), "maxItems"@) == Some(Json::Number(cap as int)),
{
    reveal_strlit("score");
    reveal_strlit("why_surfaced");
    reveal_strlit("matched_keyword");
    reveal_strlit("type");
    reveal_strlit("items");
    reveal_strlit("maxItems");
    reveal_strlit("description");
    let score_required = seq!["score"@, "why_surfaced"@, "matched_keyword"@];
    lemma_object_schema_lookup(score_candidate_properties(), score_required);
    assert("score"@.len() == 5 && "why_surfaced"@.len() == 12 && "matched_keyword"@.len() == 15);
    assert("type"@.len() == 4 && "items"@.len() == 5 && "maxItems"@.len() == 8);
    let sp = score_candidate_properties();
    lemma_first_member_unique(sp, "score"@, 0);
    lemma_first_member_unique(sp, "why_surfaced"@, 1);
    lemma_first_member_unique(sp, "matched_keyword"@, 2);
    let sr = score_required.map_values(|k: Seq<char>| Json::Str(k));
    assert(sr[0] == Json::Str("score"@));
    assert(sr[1] == Json::Str("why_surfaced"@));
    assert(sr[2] == Json::Str("matched_keyword"@));

    let np = seq![("name"@, string_property(THEME_NAME_DESCRIPTION@))];
    lemma_object_schema_lookup(np, seq!["name"@]);
    lemma_first_member_unique(np, "name"@, 0);

    let pp = seq![("perspectives"@, perspectives_property(cap))];
    lemma_object_schema_lookup(pp, seq!["perspectives"@]);
    lemma_first_member_unique(pp, "perspectives"@, 0);
    let pm = perspectives_property(cap)->Object_0;
    lemma_first_member_unique(pm, "maxItems"@, 2);
}

/// The member `key` of the declared property `name` of an object schema, when there is one.
pub open spec fn property_member(schema: Json, name: Seq<char>, key: Seq<char>) -> Option<Json> {
    match json_get(schema, "properties"@) {
        Some(properties) => match json_get(properties, name) {
            Some(property) => json_get(property, key),
            None => None,
        },
        None => None,
    }
}

proof fn lemma_string_property_type(description: Seq<char>)
    ensures
        json_get(string_property(description), "type"@) == Some(Json::Str("string"@)),
{
    lemma_first_member_unique(string_property(description)->Object_0, "type"@, 0);
}

/// Law: every property of the Zirkel output schemas has the JSON type of the argument field
/// it fills: `score` is an integer from 0 to 100, `why_surfaced`, `matched_keyword` and the
/// theme `name` are strings, and `perspectives` is an array of strings of at most `cap` items.
pub proof fn lemma_schema_property_types(cap: nat)
    ensures
        property_member(score_candidate_schema(), "score"@, "type"@) == Some(Json::Str("integer"@)),
        property_member(score_candidate_schema(), "score"@, "minimum"@) == Some(Json::Number(0)),
        property_member(score_candidate_schema(), "score"@, "maximum"@) == Some(Json::Number(100)),
        property_member(score_candidate_schema(), "why_surfaced"@, "type"@) == Some(
            Json::Str("string"@),
        ),
        property_member(score_candidate_schema(), "matched_keyword"@, "type"@) == Some(
            Json::Str("string"@),
        ),
        property_member(name_theme_schema(), "name"@, "type"@) == Some(Json::Str("string"@)),
        property_member(emit_perspectives_schema(cap), "perspectives"@, "type"@) == Some(
            Json::Str("array"@),
        ),
        property_member(emit_perspectives_schema(cap), "perspectives"@, "maxItems"@) == Some(
            Json::Number(cap as int),
        ),
        property_member(emit_perspectives_schema(cap), "perspectives"@, "items"@) matches Some(items)
            && json_get(items, "type"@) == Some(Json::Str("string"@)),
{
    reveal_strlit("score");
    reveal_strlit("why_surfaced");
    reveal_strlit("matched_keyword");
    reveal_strlit("type");
    reveal_strlit("minimum");
    reveal_strlit("maximum");
    reveal_strlit("items");
    reveal_strlit("maxItems");
    assert("score"@.len() == 5 && "why_surfaced"@.len() == 12 && "matched_keyword"@.len() == 15);
    assert("type"@.len() == 4 && "items"@.len() == 5 && "maxItems"@.len() == 8);
    assert("minimum"@.len() == 7 && "maximum"@.len() == 7);
    assert("minimum"@[1] != "maximum"@[1]);

    let score_required = seq!["score"@, "why_surfaced"@, "matched_keyword"@];
    lemma_object_schema_lookup(score_candidate_properties(), score_required);
    let sp = score_candidate_properties();
    lemma_first_member_unique(sp, "score"@, 0);
    lemma_first_member_unique(sp, "why_surfaced"@, 1);
    lemma_first_member_unique(sp, "matched_keyword"@, 2);
    let score = score_property()->Object_0;
    lemma_first_member_unique(score, "type"@, 0);
    lemma_first_member_unique(score, "minimum"@, 1);
    lemma_first_member_unique(score, "maximum"@, 2);
    lemma_string_property_type(WHY_SURFACED_DESCRIPTION@);
    lemma_string_property_type(MATCHED_KEYWORD_DESCRIPTION@);

    let np = seq![("name"@, string_property(THEME_NAME_DESCRIPTION@))];
    lemma_object_schema_lookup(np, seq!["name"@]);
    lemma_first_member_unique(np, "name"@, 0);
    lemma_string_property_type(THEME_NAME_DESCRIPTION@);

    let pp = seq![("perspectives"@, perspectives_property(cap))];
    lemma_object_schema_lookup(pp, seq!["perspectives"@]);
    lemma_first_member_unique(pp, "perspectives"@, 0);
    let pm = perspectives_property(cap)->Object_0;
    lemma_first_member_unique(pm, "type"@, 0);
    lemma_first_member_unique(pm, "items"@, 1);
    lemma_first_member_unique(pm, "maxItems"@, 2);
    lemma_string_property_type(PERSPECTIVE_LABEL_DESCRIPTION@);
}

/// Law: the perspective cap keeps any positive maximum and raises zero to one, so the
/// schema never allows zero or fewer items.
pub proof fn lemma_perspective_cap(max_perspectives: nat)
    ensures
        perspective_cap(max_perspectives) >= 1,
        max_perspectives >= 1 ==> perspective_cap(max_perspectives) == max_perspectives,
        max_perspectives == 0 ==> perspective_cap(max_perspectives) == 1,
{
}

} // verus!
