use vstd::prelude::*;
use crate::context::LabContext;
use crate::json::{member, with_member, Json, JsonValue};
use crate::text::{decimal, decimal_string};

verus! {

/// A value, or JSON null where there is none.
pub open spec fn or_null(v: Option<Json>) -> Json {
    match v {
        Some(j) => j,
        None => Json::Null,
    }
}

/// The transcript line that records what `agent` wrote under `field`.
pub open spec fn transcript_entry(ctx: Seq<(Seq<char>, Json)>, agent: Seq<char>, field: Seq<char>) -> Json {
    Json::Object(
        seq![
            ("agent"@, Json::Str(agent)),
            ("field"@, Json::Str(field)),
            ("value"@, or_null(member(ctx, field))),
        ],
    )
}

/// The context after `entry` is added to its transcript: appended to an array,
/// or made the first line where there is no transcript; a transcript that is not
/// an array is left as it is.
pub open spec fn with_transcript_entry(ctx: Seq<(Seq<char>, Json)>, entry: Json) -> Seq<(Seq<char>, Json)> {
    match member(ctx, "transcript"@) {
        Some(Json::Array(lines)) => with_member(ctx, "transcript"@, Json::Array(lines.push(entry))),
        Some(_) => ctx,
        None => with_member(ctx, "transcript"@, Json::Array(seq![entry])),
    }
}

/// The run that a context belongs to: its `run_id` where that is a string, else empty.
pub open spec fn run_id_of(ctx: Seq<(Seq<char>, Json)>) -> Seq<char> {
    match member(ctx, "run_id"@) {
        Some(Json::Str(s)) => s,
        _ => Seq::empty(),
    }
}

/// The realtime event that announces a transcript line.
pub open spec fn transcript_event(ctx: Seq<(Seq<char>, Json)>, agent: Seq<char>, field: Seq<char>, ts_ms: nat) -> Json {
    Json::Object(
        seq![
            ("type"@, Json::Str("transcript"@)),
            ("run_id"@, Json::Str(run_id_of(ctx))),
            ("agent"@, Json::Str(agent)),
            ("field"@, Json::Str(field)),
            ("value"@, or_null(member(ctx, field))),
            ("ts_ms"@, Json::Number(decimal(ts_ms))),
        ],
    )
}

/// What recording a transcript line produces: the line, and the event to publish.
#[derive(Debug, PartialEq)]
pub struct TranscriptUpdate {
    pub entry: JsonValue,
    pub event: JsonValue,
}

/// A copy of the value stored under `key`, or null.
pub fn value_or_null(ctx: &LabContext, key: &str) -> (r: JsonValue)
    ensures
        r.model() == or_null(ctx.lookup(key@)),
{
    match ctx.get(key) {
        Some(v) => v.deep_copy(),
        None => JsonValue::Null,
    }
}

/// Records in the transcript that `agent` wrote `field`, and builds the event that
/// announces it, stamped `ts_ms`.
pub fn append_transcript(ctx: &mut LabContext, agent: &str, field: &str, ts_ms: u128) -> (r: TranscriptUpdate)
    ensures
        r.entry.model() == transcript_entry(old(ctx)@, agent@, field@),
        final(ctx)@ == with_transcript_entry(old(ctx)@, transcript_entry(old(ctx)@, agent@, field@)),
        r.event.model() == transcript_event(final(ctx)@, agent@, field@, ts_ms as nat),
{
    let ghost ctx0 = ctx@;
    let mut fields: Vec<(String, JsonValue)> = Vec::new();
    fields.push((String::from_str("agent"), JsonValue::string(agent)));
    fields.push((String::from_str("field"), JsonValue::string(field)));
    fields.push((String::from_str("value"), value_or_null(ctx, field)));
    let entry = JsonValue::Object(fields);
    proof {
        entry.lemma_model_parts();
        assert(crate::json::fields_model(fields@) =~= seq![
            ("agent"@, Json::Str(agent@)),
            ("field"@, Json::Str(field@)),
            ("value"@, or_null(member(ctx0, field@))),
        ]);
    }
    let ghost em = entry.model();
    let existing = match ctx.get("transcript") {
        Some(t) => Some(t.deep_copy()),
        None => None,
    };
    match existing {
        Some(JsonValue::Array(lines)) => {
            let mut lines = lines;
            let ghost before = lines@;
            proof {
                JsonValue::Array(lines).lemma_model_parts();
            }
            lines.push(entry.deep_copy());
            let t = JsonValue::Array(lines);
            proof {
                t.lemma_model_parts();
                assert(crate::json::items_model(lines@) =~= crate::json::items_model(before).push(em));
            }
            ctx.set("transcript", t);
        },
        Some(_) => {},
        None => {
            let mut lines: Vec<JsonValue> = Vec::new();
            lines.push(entry.deep_copy());
            let t = JsonValue::Array(lines);
            proof {
                t.lemma_model_parts();
                assert(crate::json::items_model(lines@) =~= seq![em]);
            }
            ctx.set("transcript", t);
        },
    }
    let run_id = match ctx.get("run_id") {
        Some(JsonValue::Str(s)) => s.clone(),
        _ => String::new(),
    };
    let mut ev: Vec<(String, JsonValue)> = Vec::new();
    ev.push((String::from_str("type"), JsonValue::string("transcript")));
    ev.push((String::from_str("run_id"), JsonValue::Str(run_id)));
    ev.push((String::from_str("agent"), JsonValue::string(agent)));
    ev.push((String::from_str("field"), JsonValue::string(field)));
    ev.push((String::from_str("value"), value_or_null(ctx, field)));
    ev.push((String::from_str("ts_ms"), JsonValue::Number(decimal_string(ts_ms))));
    let event = JsonValue::Object(ev);
    proof {
        event.lemma_model_parts();
        assert(crate::json::fields_model(ev@) =~= seq![
            ("type"@, Json::Str("transcript"@)),
            ("run_id"@, Json::Str(run_id_of(ctx@))),
            ("agent"@, Json::Str(agent@)),
            ("field"@, Json::Str(field@)),
            ("value"@, or_null(member(ctx@, field@))),
            ("ts_ms"@, Json::Number(decimal(ts_ms as nat))),
        ]);
    }
    TranscriptUpdate { entry, event }
}

} // verus!
