use vstd::prelude::*;
use crate::json::{fields_model, Json, JsonValue};
use crate::text::{decimal, decimal_string};

verus! {

/// The context handed to the model with a bare prompt: `{"prompt_only": true}`.
pub open spec fn prompt_only_context() -> Json {
    Json::Object(seq![("prompt_only"@, Json::Bool(true))])
}

/// Builds `{"prompt_only": true}`.
pub fn prompt_only_value() -> (r: JsonValue)
    ensures
        r.model() == prompt_only_context(),
{
    let mut f: Vec<(String, JsonValue)> = Vec::new();
    f.push((String::from_str("prompt_only"), JsonValue::Bool(true)));
    let r = JsonValue::Object(f);
    proof {
        r.lemma_model_parts();
        assert(fields_model(f@) =~= prompt_only_context()->Object_0);
    }
    r
}

/// The language model that the agents ask.
pub open spec fn chat_model_name() -> Seq<char> {
    "gpt-4"@
}

/// The name of the language model that the agents ask.
pub fn chat_model() -> (r: String)
    ensures
        r@ == chat_model_name(),
{
    String::from_str("gpt-4")
}

/// The system prompt that casts the model as `role`.
pub open spec fn system_prompt_text(role: Seq<char>) -> Seq<char> {
    "You are the "@ + role
        + " agent in a multi-agent research lab. Follow your role strictly. Use and update shared state when appropriate."@
}

/// The user prompt: the instruction, then the shared state as JSON text.
pub open spec fn user_prompt_text(instruction: Seq<char>, state_json: Seq<char>) -> Seq<char> {
    "Instruction:\n"@ + instruction + "\n\nShared State (JSON):\n"@ + state_json
        + "\n\nRespond with concise JSON representing your output."@
}

/// Builds the system prompt for `role`.
pub fn system_prompt(role: &str) -> (r: String)
    ensures
        r@ == system_prompt_text(role@),
{
    let mut r = String::from_str("You are the ");
    r.append(role);
    r.append(
        " agent in a multi-agent research lab. Follow your role strictly. Use and update shared state when appropriate.",
    );
    r
}

/// Builds the user prompt from the instruction and the JSON text of the shared state.
pub fn user_prompt(instruction: &str, state_json: &str) -> (r: String)
    ensures
        r@ == user_prompt_text(instruction@, state_json@),
{
    let mut r = String::from_str("Instruction:\n");
    r.append(instruction);
    r.append("\n\nShared State (JSON):\n");
    r.append(state_json);
    r.append("\n\nRespond with concise JSON representing your output.");
    r
}

/// The reply that stands in for the model when it cannot be reached.
pub open spec fn stub_reply_model(role: Seq<char>, instruction: Seq<char>) -> Json {
    Json::Object(
        seq![
            ("role"@, Json::Str(role)),
            ("note"@, Json::Str("stubbed response (set OPENAI_API_KEY to enable real calls)"@)),
            ("result"@, Json::Str(instruction)),
        ],
    )
}

/// Builds the reply that stands in for the model when it cannot be reached.
pub fn stub_reply(role: &str, instruction: &str) -> (r: JsonValue)
    ensures
        r.model() == stub_reply_model(role@, instruction@),
{
    let mut f: Vec<(String, JsonValue)> = Vec::new();
    f.push((String::from_str("role"), JsonValue::string(role)));
    f.push(
        (
            String::from_str("note"),
            JsonValue::string("stubbed response (set OPENAI_API_KEY to enable real calls)"),
        ),
    );
    f.push((String::from_str("result"), JsonValue::string(instruction)));
    let r = JsonValue::Object(f);
    proof {
        r.lemma_model_parts();
        assert(fields_model(f@) =~= stub_reply_model(role@, instruction@)->Object_0);
    }
    r
}

/// The value of a reply: the document its text parses to, or else the text itself.
pub fn reply_value(content: &str, parsed: Option<JsonValue>) -> (r: JsonValue)
    ensures
        r.model() == match parsed {
            Some(v) => v.model(),
            None => Json::Str(content@),
        },
{
    match parsed {
        Some(v) => v,
        None => JsonValue::string(content),
    }
}

/// The result of a web search: a note that results came back, or a stand-in
/// where the search could not be made.
pub open spec fn search_result_model(query: Seq<char>, max_results: nat, answered: bool) -> Json {
    if answered {
        Json::Object(
            seq![
                ("query"@, Json::Str(query)),
                ("note"@, Json::Str("tavily response available (not serialized)"@)),
                ("max_results"@, Json::Number(decimal(max_results))),
            ],
        )
    } else {
        Json::Object(
            seq![
                ("note"@, Json::Str("tavily stubbed (set TAVILY_API_KEY)"@)),
                ("query"@, Json::Str(query)),
                ("results"@, Json::Array(Seq::empty())),
            ],
        )
    }
}

/// Builds the result of a web search for `query`.
pub fn search_result(query: &str, max_results: usize, answered: bool) -> (r: JsonValue)
    ensures
        r.model() == search_result_model(query@, max_results as nat, answered),
{
    let mut f: Vec<(String, JsonValue)> = Vec::new();
    if answered {
        f.push((String::from_str("query"), JsonValue::string(query)));
        f.push(
            (
                String::from_str("note"),
                JsonValue::string("tavily response available (not serialized)"),
            ),
        );
        f.push(
            (String::from_str("max_results"), JsonValue::Number(decimal_string(max_results as u128))),
        );
    } else {
        f.push((String::from_str("note"), JsonValue::string("tavily stubbed (set TAVILY_API_KEY)")));
        f.push((String::from_str("query"), JsonValue::string(query)));
        let empty = JsonValue::Array(Vec::new());
        proof {
            empty.lemma_model_parts();
            assert(empty.model()->Array_0 =~= Seq::<Json>::empty());
        }
        f.push((String::from_str("results"), empty));
    }
    let r = JsonValue::Object(f);
    proof {
        r.lemma_model_parts();
        assert(fields_model(f@) =~= search_result_model(query@, max_results as nat, answered)->Object_0);
    }
    r
}

/// The record of a written report: the PDF where it could be made, else the HTML page.
pub open spec fn report_artifact_model(pdf_path: Seq<char>, html_path: Seq<char>, pdf_made: bool) -> Json {
    if pdf_made {
        Json::Object(seq![("artifact"@, Json::Str(pdf_path)), ("kind"@, Json::Str("pdf"@))])
    } else {
        Json::Object(
            seq![
                ("artifact"@, Json::Str(html_path)),
                ("kind"@, Json::Str("html"@)),
                ("note"@, Json::Str("wkhtmltopdf not available; saved HTML instead"@)),
            ],
        )
    }
}

/// Builds the record of a written report.
pub fn report_artifact(pdf_path: &str, html_path: &str, pdf_made: bool) -> (r: JsonValue)
    ensures
        r.model() == report_artifact_model(pdf_path@, html_path@, pdf_made),
{
    let mut f: Vec<(String, JsonValue)> = Vec::new();
    if pdf_made {
        f.push((String::from_str("artifact"), JsonValue::string(pdf_path)));
        f.push((String::from_str("kind"), JsonValue::string("pdf")));
    } else {
        f.push((String::from_str("artifact"), JsonValue::string(html_path)));
        f.push((String::from_str("kind"), JsonValue::string("html")));
        f.push(
            (
                String::from_str("note"),
                JsonValue::string("wkhtmltopdf not available; saved HTML instead"),
            ),
        );
    }
    let r = JsonValue::Object(f);
    proof {
        r.lemma_model_parts();
        assert(fields_model(f@) =~= report_artifact_model(pdf_path@, html_path@, pdf_made)->Object_0);
    }
    r
}

} // verus!
