use vstd::prelude::*;
use crate::context::LabContext;
use crate::json::{fields_model, items_model, with_member, Json, JsonValue};
use crate::transcript::or_null;

verus! {

/// The goal that seeds a run: `{"title": title}`.
pub open spec fn goal_model(title: Seq<char>) -> Json {
    Json::Object(seq![("title"@, Json::Str(title))])
}

/// Builds the goal that seeds a run.
pub fn goal_value(title: &str) -> (r: JsonValue)
    ensures
        r.model() == goal_model(title@),
{
    let mut f: Vec<(String, JsonValue)> = Vec::new();
    f.push((String::from_str("title"), JsonValue::string(title)));
    let r = JsonValue::Object(f);
    proof {
        r.lemma_model_parts();
        assert(fields_model(f@) =~= goal_model(title@)->Object_0);
    }
    r
}

/// The context a run starts from: the goal where one is given, then the run's identifier.
pub open spec fn seeded_context(goal: Option<Seq<char>>, run_id: Seq<char>) -> Seq<(Seq<char>, Json)> {
    let with_goal = match goal {
        Some(t) => with_member(Seq::empty(), "goal"@, goal_model(t)),
        None => Seq::empty(),
    };
    with_member(with_goal, "run_id"@, Json::Str(run_id))
}

/// Builds the context a run starts from.
pub fn initial_context(goal: Option<String>, run_id: &str) -> (r: LabContext)
    ensures
        r@ == seeded_context(
            match goal {
                Some(t) => Some(t@),
                None => None,
            },
            run_id@,
        ),
{
    let mut ctx = LabContext::new();
    match goal {
        Some(t) => ctx.set("goal", goal_value(t.as_str())),
        None => {},
    }
    ctx.set("run_id", JsonValue::string(run_id));
    ctx
}

/// The run an event belongs to: its `run_id` where that is a string, else empty.
pub open spec fn event_run(event: Json) -> Seq<char> {
    match event.get("run_id"@) {
        Some(Json::Str(s)) => s,
        _ => Seq::empty(),
    }
}

/// Whether a transcript event belongs to the run `run_id`.
pub fn event_matches_run(event: &JsonValue, run_id: &str) -> (r: bool)
    ensures
        r == (event_run(event.model()) == run_id@),
{
    let wanted = String::from_str(run_id);
    match event.get("run_id") {
        Some(JsonValue::Str(s)) => *s == wanted,
        _ => {
            let empty = String::new();
            empty == wanted
        },
    }
}

/// A member of a run's result, or `default` where it has none.
pub open spec fn result_part(result: Json, key: Seq<char>, default: Json) -> Json {
    match result.get(key) {
        Some(v) => v,
        None => default,
    }
}

/// What an HTTP run answers: the transcript (an empty array where missing) and the
/// final report (an empty object where missing) of the run's result.
pub fn run_outputs(result: &JsonValue) -> (r: (JsonValue, JsonValue))
    ensures
        r.0.model() == result_part(result.model(), "transcript"@, Json::Array(Seq::empty())),
        r.1.model() == result_part(result.model(), "final_report"@, Json::Object(Seq::empty())),
{
    let transcript = match result.get("transcript") {
        Some(t) => t.deep_copy(),
        None => {
            let e = JsonValue::Array(Vec::new());
            proof {
                e.lemma_model_parts();
                assert(e.model()->Array_0 =~= Seq::<Json>::empty());
            }
            e
        },
    };
    let report = match result.get("final_report") {
        Some(t) => t.deep_copy(),
        None => {
            let e = JsonValue::Object(Vec::new());
            proof {
                e.lemma_model_parts();
                assert(e.model()->Object_0 =~= Seq::<(Seq<char>, Json)>::empty());
            }
            e
        },
    };
    (transcript, report)
}

/// The labels under which a run's outputs are printed, with the members they show.
pub open spec fn output_label_strs() -> Seq<(&'static str, &'static str)> {
    seq![
        ("[PI] Goal", "goal"),
        ("[Reader] Claims", "claims"),
        ("[Critic] Review", "critic_review"),
        ("[Planner] Plan", "plan"),
        ("[Statistician] Approval", "statistical_approval"),
        ("[Ethics] Approval", "ethics_approval"),
        ("[Analyst] Analysis", "analysis_result"),
        ("[PI] Synthesis", "pi_synthesis"),
        ("[Postdoc] Report Draft", "report_draft"),
        ("[PI] Final Report", "final_report"),
    ]
}

/// The labelled outputs of a run's result: for each label whose member the result
/// holds, the label and the member, in the order of the labels.
pub open spec fn labelled_outputs_of(result: Json, table: Seq<(&'static str, &'static str)>) -> Seq<(Seq<char>, Json)>
    decreases table.len(),
{
    if table.len() == 0 {
        Seq::empty()
    } else {
        let prev = labelled_outputs_of(result, table.drop_last());
        match result.get(table.last().1@) {
            Some(v) => prev.push((table.last().0@, v)),
            None => prev,
        }
    }
}

/// The outputs of a run to print, each with its label.
pub fn labelled_outputs(result: &JsonValue) -> (r: Vec<(String, JsonValue)>)
    ensures
        fields_model(r@) == labelled_outputs_of(result.model(), output_label_strs()),
{
    let table: Vec<(&'static str, &'static str)> = vec![
        ("[PI] Goal", "goal"),
        ("[Reader] Claims", "claims"),
        ("[Critic] Review", "critic_review"),
        ("[Planner] Plan", "plan"),
        ("[Statistician] Approval", "statistical_approval"),
        ("[Ethics] Approval", "ethics_approval"),
        ("[Analyst] Analysis", "analysis_result"),
        ("[PI] Synthesis", "pi_synthesis"),
        ("[Postdoc] Report Draft", "report_draft"),
        ("[PI] Final Report", "final_report"),
    ];
    assert(table@ == output_label_strs());
    let mut out: Vec<(String, JsonValue)> = Vec::new();
    let mut i: usize = 0;
    assert(output_label_strs().take(0) =~= Seq::<(&'static str, &'static str)>::empty());
    assert(fields_model(out@) =~= Seq::<(Seq<char>, Json)>::empty());
    while i < table.len()
        invariant
            table@ == output_label_strs(),
            i <= table.len(),
            fields_model(out@) == labelled_outputs_of(result.model(), output_label_strs().take(i as int)),
        decreases table.len() - i,
    {
        let (label, key) = table[i];
        assert(output_label_strs().take(i + 1).drop_last() =~= output_label_strs().take(i as int));
        let ghost prev = out@;
        match result.get(key) {
            Some(v) => {
                out.push((String::from_str(label), v.deep_copy()));
                assert(fields_model(out@) =~= fields_model(prev).push((label@, v.model())));
            },
            None => {},
        }
        i = i + 1;
    }
    assert(output_label_strs().take(10) =~= output_label_strs());
    out
}

/// A transcript line as it is printed: its agent ("?" where missing), its field
/// (empty where missing), and its value (null where missing).
pub open spec fn printed_line(e: Json) -> (Seq<char>, Seq<char>, Json) {
    (
        match e.get("agent"@) {
            Some(Json::Str(a)) => a,
            _ => "?"@,
        },
        match e.get("field"@) {
            Some(Json::Str(f)) => f,
            _ => Seq::empty(),
        },
        or_null(e.get("value"@)),
    )
}

/// The printed lines of the transcript in a run's result; none where it has no
/// transcript array.
pub open spec fn printed_transcript(result: Json) -> Seq<(Seq<char>, Seq<char>, Json)> {
    match result.get("transcript"@) {
        Some(Json::Array(lines)) => lines.map_values(|e: Json| printed_line(e)),
        _ => Seq::empty(),
    }
}

/// The model of a printed transcript line.
pub open spec fn line_model(l: (String, String, JsonValue)) -> (Seq<char>, Seq<char>, Json) {
    (l.0@, l.1@, l.2.model())
}

fn print_line(e: &JsonValue) -> (r: (String, String, JsonValue))
    ensures
        line_model(r) == printed_line(e.model()),
{
    let agent = match e.get("agent") {
        Some(JsonValue::Str(a)) => a.clone(),
        _ => String::from_str("?"),
    };
    let field = match e.get("field") {
        Some(JsonValue::Str(f)) => f.clone(),
        _ => String::new(),
    };
    let value = match e.get("value") {
        Some(v) => v.deep_copy(),
        None => JsonValue::Null,
    };
    (agent, field, value)
}

/// The transcript lines of a run's result, as they are printed.
pub fn transcript_lines(result: &JsonValue) -> (r: Vec<(String, String, JsonValue)>)
    ensures
        r@.map_values(|l: (String, String, JsonValue)| line_model(l)) == printed_transcript(result.model()),
{
    let mut out: Vec<(String, String, JsonValue)> = Vec::new();
    match result.get("transcript") {
        Some(JsonValue::Array(lines)) => {
            proof {
                JsonValue::Array(*lines).lemma_model_parts();
            }
            let mut i: usize = 0;
            while i < lines.len()
                invariant
                    i <= lines.len(),
                    out.len() == i,
                    forall|k: int| 0 <= k < i ==> line_model(#[trigger] out@[k]) == printed_line(lines@[k].model()),
                decreases lines.len() - i,
            {
                out.push(print_line(&lines[i]));
                i = i + 1;
            }
            assert(out@.map_values(|l: (String, String, JsonValue)| line_model(l)) =~= items_model(
                lines@,
            ).map_values(|e: Json| printed_line(e)));
        },
        _ => {
            assert(out@.map_values(|l: (String, String, JsonValue)| line_model(l)) =~= Seq::<
                (Seq<char>, Seq<char>, Json),
            >::empty());
        },
    }
    out
}

} // verus!
