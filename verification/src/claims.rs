use vstd::prelude::*;
use crate::json::{
    fields_model, find_member, items_model, member, set_member, with_member, Json, JsonValue,
};

verus! {

/// The members with `key` set to `v` only where `key` is missing.
pub open spec fn with_default(fields: Seq<(Seq<char>, Json)>, key: Seq<char>, v: Json) -> Seq<(Seq<char>, Json)> {
    if member(fields, key) is Some {
        fields
    } else {
        with_member(fields, key, v)
    }
}

/// Evidence with an empty URL and an empty snippet.
pub open spec fn blank_evidence() -> Json {
    Json::Object(seq![("url"@, Json::Str(Seq::empty())), ("snippet"@, Json::Str(Seq::empty()))])
}

/// The evidence of a claim once it is completed: an object keeps its members and
/// gets an empty `url` and `snippet` where they are missing; anything else, or no
/// evidence at all, becomes blank evidence.
pub open spec fn normalized_evidence(ev: Option<Json>) -> Json {
    match ev {
        Some(Json::Object(f)) => Json::Object(
            with_default(with_default(f, "url"@, Json::Str(Seq::empty())), "snippet"@, Json::Str(Seq::empty())),
        ),
        _ => blank_evidence(),
    }
}

/// A claim with its evidence completed; values that are not objects stay as they are.
pub open spec fn normalized_claim(c: Json) -> Json {
    match c {
        Json::Object(f) => Json::Object(
            with_member(f, "evidence"@, normalized_evidence(member(f, "evidence"@))),
        ),
        _ => c,
    }
}

/// The Reader's output with the evidence of each of its claims completed, where it
/// is an object whose `claims` is an array; anything else stays as it is.
pub open spec fn normalized_claims(v: Json) -> Json {
    match v {
        Json::Object(f) => match member(f, "claims"@) {
            Some(Json::Array(items)) => Json::Object(
                with_member(f, "claims"@, Json::Array(items.map_values(|c: Json| normalized_claim(c)))),
            ),
            _ => v,
        },
        _ => v,
    }
}

fn set_default(fields: &mut Vec<(String, JsonValue)>, key: &str, v: JsonValue)
    ensures
        fields_model(final(fields)@) == with_default(fields_model(old(fields)@), key@, v.model()),
{
    let k = String::from_str(key);
    match find_member(fields, &k) {
        Some(_) => {},
        None => {
            set_member(fields, key, v);
        },
    }
}

/// Completes the evidence of a claim.
pub fn normalize_evidence(ev: Option<&JsonValue>) -> (r: JsonValue)
    ensures
        r.model() == normalized_evidence(
            match ev {
                Some(e) => Some(e.model()),
                None => None,
            },
        ),
{
    proof {
        reveal_strlit("");
    }
    let copy = match ev {
        Some(e) => Some(e.deep_copy()),
        None => None,
    };
    match copy {
        Some(JsonValue::Object(fields)) => {
            let ghost f0 = fields_model(fields@);
            proof {
                JsonValue::Object(fields).lemma_model_parts();
                assert(ev matches Some(e) && e.model() == Json::Object(f0));
                assert(""@ =~= Seq::<char>::empty());
            }
            let mut fields = fields;
            set_default(&mut fields, "url", JsonValue::string(""));
            set_default(&mut fields, "snippet", JsonValue::string(""));
            let r = JsonValue::Object(fields);
            proof {
                r.lemma_model_parts();
            }
            r
        },
        _ => {
            let mut fields: Vec<(String, JsonValue)> = Vec::new();
            fields.push((String::from_str("url"), JsonValue::string("")));
            fields.push((String::from_str("snippet"), JsonValue::string("")));
            let r = JsonValue::Object(fields);
            proof {
                r.lemma_model_parts();
                assert(""@ =~= Seq::<char>::empty());
                assert(fields_model(fields@)[0] == ("url"@, Json::Str(Seq::empty())));
                assert(fields_model(fields@)[1] == ("snippet"@, Json::Str(Seq::empty())));
                assert(fields_model(fields@) =~= blank_evidence()->Object_0);
            }
            r
        },
    }
}

/// Completes the evidence of one claim.
pub fn normalize_claim(c: &JsonValue) -> (r: JsonValue)
    ensures
        r.model() == normalized_claim(c.model()),
{
    let ev = normalize_evidence(c.get("evidence"));
    let copy = c.deep_copy();
    match copy {
        JsonValue::Object(fields) => {
            proof {
                JsonValue::Object(fields).lemma_model_parts();
            }
            let mut fields = fields;
            set_member(&mut fields, "evidence", ev);
            let r = JsonValue::Object(fields);
            proof {
                r.lemma_model_parts();
            }
            r
        },
        other => other,
    }
}

/// Completes the evidence of every claim in the Reader's output.
pub fn normalize_claims(v: &JsonValue) -> (r: JsonValue)
    ensures
        r.model() == normalized_claims(v.model()),
{
    proof {
        v.lemma_model_parts();
    }
    match v.get("claims") {
        Some(JsonValue::Array(items)) => {
            proof {
                JsonValue::Array(*items).lemma_model_parts();
            }
            let mut out: Vec<JsonValue> = Vec::new();
            let mut i: usize = 0;
            while i < items.len()
                invariant
                    i <= items.len(),
                    out.len() == i,
                    forall|k: int|
                        0 <= k < i ==> (#[trigger] out@[k]).model() == normalized_claim(
                            items@[k].model(),
                        ),
                decreases items.len() - i,
            {
                out.push(normalize_claim(&items[i]));
                i = i + 1;
            }
            let claims = JsonValue::Array(out);
            proof {
                claims.lemma_model_parts();
                assert(items_model(out@) =~= items_model(items@).map_values(
                    |c: Json| normalized_claim(c),
                ));
            }
            match v.deep_copy() {
                JsonValue::Object(fields) => {
                    proof {
                        JsonValue::Object(fields).lemma_model_parts();
                    }
                    let mut fields = fields;
                    set_member(&mut fields, "claims", claims);
                    let r = JsonValue::Object(fields);
                    proof {
                        r.lemma_model_parts();
                    }
                    r
                },
                other => other,
            }
        },
        _ => v.deep_copy(),
    }
}

} // verus!
