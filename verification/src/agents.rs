use vstd::prelude::*;
use crate::claims::{normalize_claims, normalized_claims};
use crate::context::LabContext;
use crate::dispatch::{
    detect_inter_agent_request, inter_agent_request, request_sliceable, request_sliceable_exec,
};
use crate::flow::MyState;
use crate::json::{fields_model, member, set_member, with_member, Json, JsonValue};
use crate::llm::{prompt_only_context, prompt_only_value};
use crate::transcript::{
    append_transcript, transcript_entry, transcript_event, with_transcript_entry, TranscriptUpdate,
};

verus! {

/// The agents of the research lab: the pipeline's roles, and the two of the
/// question-and-answer loop.
#[derive(Clone, Copy, Debug, PartialEq, Eq, Structural)]
pub enum AgentKind {
    Question,
    Answer,
    Goal,
    Reader,
    Critic,
    Planner,
    Statistician,
    Ethics,
    Analyst,
    Synthesis,
    Postdoc,
    FinalReport,
}

/// The context entry under which an agent stores its output.
pub open spec fn output_key(k: AgentKind) -> Seq<char> {
    match k {
            AgentKind::Question => "question"@,
            AgentKind::Answer => "answer"@,
            AgentKind::Goal => "goal"@,
            AgentKind::Reader => "claims"@,
            AgentKind::Critic => "critic_review"@,
            AgentKind::Planner => "plan"@,
            AgentKind::Statistician => "statistical_approval"@,
            AgentKind::Ethics => "ethics_approval"@,
            AgentKind::Analyst => "analysis_result"@,
            AgentKind::Synthesis => "pi_synthesis"@,
            AgentKind::Postdoc => "report_draft"@,
            AgentKind::FinalReport => "final_report"@,
    }
}

/// The name under which an agent's lines appear in the transcript.
pub open spec fn agent_label(k: AgentKind) -> Seq<char> {
    match k {
            AgentKind::Question => "User"@,
            AgentKind::Answer => "Answer"@,
            AgentKind::Goal => "PI"@,
            AgentKind::Reader => "Reader"@,
            AgentKind::Critic => "Critic"@,
            AgentKind::Planner => "Planner"@,
            AgentKind::Statistician => "Statistician"@,
            AgentKind::Ethics => "Ethics"@,
            AgentKind::Analyst => "Analyst"@,
            AgentKind::Synthesis => "PI"@,
            AgentKind::Postdoc => "Postdoc"@,
            AgentKind::FinalReport => "PI"@,
    }
}

/// The role an agent asks the language model to play.
pub open spec fn llm_role(k: AgentKind) -> Seq<char> {
    match k {
            AgentKind::Answer => "general"@,
            AgentKind::Goal => "PI"@,
            AgentKind::Reader => "Reader"@,
            AgentKind::Critic => "Critic"@,
            AgentKind::Planner => "Planner"@,
            AgentKind::Statistician => "Statistician"@,
            AgentKind::Ethics => "Ethics"@,
            AgentKind::Analyst => "Analyst"@,
            AgentKind::Synthesis => "PI"@,
            AgentKind::Postdoc => "Postdoc"@,
            _ => Seq::empty(),
    }
}

/// The instruction an agent gives the language model.
pub open spec fn llm_instruction(k: AgentKind) -> Seq<char> {
    match k {
            AgentKind::Goal => "Define or refine the current research goal. Return JSON: { title, rationale }."@,
            AgentKind::Reader => "Using the provided Tavily search results, survey literature and extract 2 concise claims. Each claim must include evidence with url and snippet. Return strict JSON: { claims: [{ id, text, evidence: { url, snippet } }] }."@,
            AgentKind::Critic => "Evaluate current claims. Flag confounders and request verifications. Return JSON: { review, actions?: [...] }."@,
            AgentKind::Planner => "Draft an experiment plan with sample size/power. Return JSON: { plan_id, summary, params }."@,
            AgentKind::Statistician => "Assess plan adequacy/power. Return JSON: { statistical_approval: true|false, notes }."@,
            AgentKind::Ethics => "Review compliance and risks. Return JSON: { ethics_approval: true|false, restrictions?: [...] }."@,
            AgentKind::Analyst => "Run the planned analysis. Return JSON: { analysis, artifacts: [paths] }."@,
            AgentKind::Synthesis => "Synthesize results into conclusions and next steps. Return JSON: { synthesis, next_steps }."@,
            AgentKind::Postdoc => "Draft a brief report based on PI synthesis. Return JSON: { report, sections }."@,
            _ => Seq::empty(),
    }
}

impl AgentKind {
    /// The context entry under which this agent stores its output.
    pub fn output_key_str(self) -> (r: &'static str)
        ensures
            r@ == output_key(self),
    {
        match self {
            AgentKind::Question => "question",
            AgentKind::Answer => "answer",
            AgentKind::Goal => "goal",
            AgentKind::Reader => "claims",
            AgentKind::Critic => "critic_review",
            AgentKind::Planner => "plan",
            AgentKind::Statistician => "statistical_approval",
            AgentKind::Ethics => "ethics_approval",
            AgentKind::Analyst => "analysis_result",
            AgentKind::Synthesis => "pi_synthesis",
            AgentKind::Postdoc => "report_draft",
            AgentKind::FinalReport => "final_report",
        }
    }

    /// The name under which this agent's lines appear in the transcript.
    pub fn agent_label_str(self) -> (r: &'static str)
        ensures
            r@ == agent_label(self),
    {
        match self {
            AgentKind::Question => "User",
            AgentKind::Answer => "Answer",
            AgentKind::Goal => "PI",
            AgentKind::Reader => "Reader",
            AgentKind::Critic => "Critic",
            AgentKind::Planner => "Planner",
            AgentKind::Statistician => "Statistician",
            AgentKind::Ethics => "Ethics",
            AgentKind::Analyst => "Analyst",
            AgentKind::Synthesis => "PI",
            AgentKind::Postdoc => "Postdoc",
            AgentKind::FinalReport => "PI",
        }
    }

    /// The role this agent asks the language model to play.
    pub fn llm_role_str(self) -> (r: &'static str)
        ensures
            r@ == llm_role(self),
    {
        proof {
            reveal_strlit("");
        }
        match self {
            AgentKind::Answer => "general",
            AgentKind::Goal => "PI",
            AgentKind::Reader => "Reader",
            AgentKind::Critic => "Critic",
            AgentKind::Planner => "Planner",
            AgentKind::Statistician => "Statistician",
            AgentKind::Ethics => "Ethics",
            AgentKind::Analyst => "Analyst",
            AgentKind::Synthesis => "PI",
            AgentKind::Postdoc => "Postdoc",
            _ => "",
        }
    }

    /// The instruction this agent gives the language model.
    pub fn llm_instruction_str(self) -> (r: &'static str)
        ensures
            r@ == llm_instruction(self),
    {
        proof {
            reveal_strlit("");
        }
        match self {
            AgentKind::Goal => "Define or refine the current research goal. Return JSON: { title, rationale }.",
            AgentKind::Reader => "Using the provided Tavily search results, survey literature and extract 2 concise claims. Each claim must include evidence with url and snippet. Return strict JSON: { claims: [{ id, text, evidence: { url, snippet } }] }.",
            AgentKind::Critic => "Evaluate current claims. Flag confounders and request verifications. Return JSON: { review, actions?: [...] }.",
            AgentKind::Planner => "Draft an experiment plan with sample size/power. Return JSON: { plan_id, summary, params }.",
            AgentKind::Statistician => "Assess plan adequacy/power. Return JSON: { statistical_approval: true|false, notes }.",
            AgentKind::Ethics => "Review compliance and risks. Return JSON: { ethics_approval: true|false, restrictions?: [...] }.",
            AgentKind::Analyst => "Run the planned analysis. Return JSON: { analysis, artifacts: [paths] }.",
            AgentKind::Synthesis => "Synthesize results into conclusions and next steps. Return JSON: { synthesis, next_steps }.",
            AgentKind::Postdoc => "Draft a brief report based on PI synthesis. Return JSON: { report, sections }.",
            _ => "",
        }
    }
}

/// The context entries that an agent shows the language model, in order.
pub open spec fn snapshot_key_strs() -> Seq<&'static str> {
    seq![
        "goal",
        "claims",
        "critic_review",
        "plan",
        "statistical_approval",
        "ethics_approval",
        "analysis_result",
        "pi_synthesis",
        "report_draft",
    ]
}

/// The context entries that an agent shows the language model, as texts.
pub open spec fn snapshot_keys() -> Seq<Seq<char>> {
    snapshot_key_strs().map_values(|s: &'static str| s@)
}

/// The members for those of `keys` that the context holds, in the order of `keys`.
pub open spec fn snapshot_of(ctx: Seq<(Seq<char>, Json)>, keys: Seq<Seq<char>>) -> Seq<(Seq<char>, Json)>
    decreases keys.len(),
{
    if keys.len() == 0 {
        Seq::empty()
    } else {
        let prev = snapshot_of(ctx, keys.drop_last());
        match member(ctx, keys.last()) {
            Some(v) => with_member(prev, keys.last(), v),
            None => prev,
        }
    }
}

/// The shared state that an agent shows the language model: an object of the
/// snapshot entries that the context holds.
pub open spec fn snapshot_model(ctx: Seq<(Seq<char>, Json)>) -> Json {
    Json::Object(snapshot_of(ctx, snapshot_keys()))
}

/// Builds the shared state that an agent shows the language model.
pub fn context_snapshot(ctx: &LabContext) -> (r: JsonValue)
    ensures
        r.model() == snapshot_model(ctx@),
{
    let keys: Vec<&'static str> = vec![
        "goal",
        "claims",
        "critic_review",
        "plan",
        "statistical_approval",
        "ethics_approval",
        "analysis_result",
        "pi_synthesis",
        "report_draft",
    ];
    assert(keys@ == snapshot_key_strs());
    let mut fields: Vec<(String, JsonValue)> = Vec::new();
    let mut i: usize = 0;
    assert(snapshot_keys().take(0) =~= Seq::<Seq<char>>::empty());
    assert(fields_model(fields@) =~= Seq::<(Seq<char>, Json)>::empty());
    while i < keys.len()
        invariant
            keys@ == snapshot_key_strs(),
            i <= keys.len(),
            fields_model(fields@) == snapshot_of(ctx@, snapshot_keys().take(i as int)),
        decreases keys.len() - i,
    {
        let key = keys[i];
        assert(snapshot_keys().take(i + 1).drop_last() =~= snapshot_keys().take(i as int));
        assert(snapshot_keys().take(i + 1).last() == key@);
        match ctx.get(key) {
            Some(v) => {
                set_member(&mut fields, key, v.deep_copy());
            },
            None => {},
        }
        i = i + 1;
    }
    assert(snapshot_keys().take(9) =~= snapshot_keys());
    let r = JsonValue::Object(fields);
    proof {
        r.lemma_model_parts();
    }
    r
}

/// A request to the language model: the role to play, the instruction, the shared state.
#[derive(Debug, PartialEq)]
pub struct LlmRequest {
    pub role: String,
    pub instruction: String,
    pub context: JsonValue,
}

/// The model of a request: role, instruction and shared state.
pub open spec fn request_model(r: LlmRequest) -> (Seq<char>, Seq<char>, Json) {
    (r.role@, r.instruction@, r.context.model())
}

/// The next piece of outside work that an agent asks for, or its result.
#[derive(Debug, PartialEq)]
pub enum ExecStep {
    /// Ask the language model; its reply goes back to the agent.
    Ask(LlmRequest),
    /// Ask the language model; its reply is the agent's result.
    AskFinal(LlmRequest),
    /// Search the web; the result goes back to the agent.
    Search { query: String, max_results: usize },
    /// The agent's result.
    Finish(JsonValue),
    /// The agent's result is a string holding the JSON text of this value.
    FinishWithText(JsonValue),
}

/// The mathematical model of a step.
pub enum StepModel {
    Ask(Seq<char>, Seq<char>, Json),
    AskFinal(Seq<char>, Seq<char>, Json),
    Search(Seq<char>, nat),
    Finish(Json),
    FinishWithText(Json),
}

impl ExecStep {
    /// The step this value stands for.
    pub open spec fn model(self) -> StepModel {
        match self {
            ExecStep::Ask(r) => StepModel::Ask(r.role@, r.instruction@, r.context.model()),
            ExecStep::AskFinal(r) => StepModel::AskFinal(r.role@, r.instruction@, r.context.model()),
            ExecStep::Search { query, max_results } => StepModel::Search(query@, max_results as nat),
            ExecStep::Finish(v) => StepModel::Finish(v.model()),
            ExecStep::FinishWithText(v) => StepModel::FinishWithText(v.model()),
        }
    }
}

/// The topic that the Reader searches: the goal's title where it is a string.
pub open spec fn goal_title(ctx: Seq<(Seq<char>, Json)>) -> Seq<char> {
    match member(ctx, "goal"@) {
        Some(g) => match g.get("title"@) {
            Some(Json::Str(t)) => t,
            _ => "current research topic"@,
        },
        None => "current research topic"@,
    }
}

/// The question that the Answer agent puts: the stored question where it is a string.
pub open spec fn question_text(ctx: Seq<(Seq<char>, Json)>) -> Seq<char> {
    match member(ctx, "question"@) {
        Some(Json::Str(q)) => q,
        _ => Seq::empty(),
    }
}

/// What the Analyst returns when an approval is missing.
pub open spec fn blocked_model() -> Json {
    Json::Object(seq![("blocked"@, Json::Str("approvals_missing"@))])
}

/// Whether the Analyst may run: both approvals are recorded.
pub open spec fn approvals_present(ctx: Seq<(Seq<char>, Json)>) -> bool {
    member(ctx, "statistical_approval"@) is Some && member(ctx, "ethics_approval"@) is Some
}

/// Whether an agent's first move is decided from the context alone.
pub open spec fn plans_from_context(k: AgentKind) -> bool {
    k != AgentKind::Question && k != AgentKind::FinalReport
}

/// An agent's first step.
pub open spec fn planned_step(k: AgentKind, ctx: Seq<(Seq<char>, Json)>) -> StepModel {
    match k {
        AgentKind::Answer => StepModel::Ask("general"@, question_text(ctx), prompt_only_context()),
        AgentKind::Reader => StepModel::Search(goal_title(ctx), 5),
        AgentKind::Analyst => if approvals_present(ctx) {
            StepModel::Ask(llm_role(k), llm_instruction(k), snapshot_model(ctx))
        } else {
            StepModel::Finish(blocked_model())
        },
        _ => StepModel::Ask(llm_role(k), llm_instruction(k), snapshot_model(ctx)),
    }
}

/// The Reader's request once the search is done: the shared state with the search
/// result under `tavily`, or `{"results": []}` where the search failed.
pub open spec fn searched_request(ctx: Seq<(Seq<char>, Json)>, found: Option<Json>) -> (Seq<char>, Seq<char>, Json) {
    let tav = match found {
        Some(j) => j,
        None => Json::Object(seq![("results"@, Json::Array(Seq::empty()))]),
    };
    (
        llm_role(AgentKind::Reader),
        llm_instruction(AgentKind::Reader),
        Json::Object(with_member(snapshot_of(ctx, snapshot_keys()), "tavily"@, tav)),
    )
}

/// Whether an agent forwards requests that its reply addresses to another agent.
pub open spec fn forwards_requests(k: AgentKind) -> bool {
    k == AgentKind::Reader || k == AgentKind::Critic
}

/// Whether a reply can be read for a forwarded request: where the agent forwards
/// and the reply is a string, it can be cut where its request parts lie.
pub open spec fn reply_readable(k: AgentKind, reply: Json) -> bool {
    forwards_requests(k) && reply is Str ==> request_sliceable(reply->Str_0)
}

/// Whether a reply can be read for a forwarded request.
pub fn reply_readable_exec(k: AgentKind, reply: &JsonValue) -> (r: bool)
    ensures
        r == reply_readable(k, reply.model()),
{
    if k == AgentKind::Reader || k == AgentKind::Critic {
        match reply {
            JsonValue::Str(s) => request_sliceable_exec(s.as_str()),
            _ => true,
        }
    } else {
        true
    }
}

/// An agent's step after the reply to `request`: a forwarding agent passes a
/// request that the reply addresses to another role on, with the same shared
/// state; the Answer agent finishes with the reply's text; the others finish with
/// the reply.
pub open spec fn next_step(k: AgentKind, request: (Seq<char>, Seq<char>, Json), reply: Json) -> StepModel {
    if forwards_requests(k) {
        match reply {
            Json::Str(s) => match inter_agent_request(s) {
                Some((role, msg)) => StepModel::AskFinal(role, msg, request.2),
                None => StepModel::Finish(reply),
            },
            _ => StepModel::Finish(reply),
        }
    } else if k == AgentKind::Answer {
        match reply {
            Json::Str(s) => StepModel::Finish(reply),
            _ => StepModel::FinishWithText(reply),
        }
    } else {
        StepModel::Finish(reply)
    }
}

fn llm_request(k: AgentKind, context: JsonValue) -> (r: LlmRequest)
    ensures
        request_model(r) == (llm_role(k), llm_instruction(k), context.model()),
{
    LlmRequest {
        role: String::from_str(k.llm_role_str()),
        instruction: String::from_str(k.llm_instruction_str()),
        context,
    }
}

/// Decides an agent's first step from the context.
pub fn plan_step(k: AgentKind, ctx: &LabContext) -> (r: ExecStep)
    requires
        plans_from_context(k),
    ensures
        r.model() == planned_step(k, ctx@),
{
    match k {
        AgentKind::Answer => {
            let q = match ctx.get("question") {
                Some(JsonValue::Str(s)) => s.clone(),
                _ => String::new(),
            };
            ExecStep::Ask(
                LlmRequest {
                    role: String::from_str("general"),
                    instruction: q,
                    context: prompt_only_value(),
                },
            )
        },
        AgentKind::Reader => {
            let title = match ctx.get("goal") {
                Some(g) => match g.get("title") {
                    Some(JsonValue::Str(t)) => t.clone(),
                    _ => String::from_str("current research topic"),
                },
                None => String::from_str("current research topic"),
            };
            ExecStep::Search { query: title, max_results: 5 }
        },
        AgentKind::Analyst => {
            let stat_ok = ctx.get("statistical_approval").is_some();
            let eth_ok = ctx.get("ethics_approval").is_some();
            if !(stat_ok && eth_ok) {
                let mut f: Vec<(String, JsonValue)> = Vec::new();
                f.push((String::from_str("blocked"), JsonValue::string("approvals_missing")));
                let b = JsonValue::Object(f);
                proof {
                    b.lemma_model_parts();
                    assert(fields_model(f@) =~= blocked_model()->Object_0);
                }
                ExecStep::Finish(b)
            } else {
                ExecStep::Ask(llm_request(k, context_snapshot(ctx)))
            }
        },
        _ => ExecStep::Ask(llm_request(k, context_snapshot(ctx))),
    }
}

/// The Reader's request once the web search is done (`None` where it failed).
pub fn reader_request(ctx: &LabContext, found: Option<JsonValue>) -> (r: LlmRequest)
    ensures
        request_model(r) == searched_request(
            ctx@,
            match found {
                Some(j) => Some(j.model()),
                None => None,
            },
        ),
{
    let tav = match found {
        Some(j) => j,
        None => {
            let empty = JsonValue::Array(Vec::new());
            let mut f: Vec<(String, JsonValue)> = Vec::new();
            proof {
                empty.lemma_model_parts();
                assert(empty.model()->Array_0 =~= Seq::<Json>::empty());
            }
            f.push((String::from_str("results"), empty));
            let r = JsonValue::Object(f);
            proof {
                r.lemma_model_parts();
                assert(fields_model(f@) =~= seq![("results"@, Json::Array(Seq::empty()))]);
            }
            r
        },
    };
    let snap = context_snapshot(ctx);
    let r = match snap {
        JsonValue::Object(fields) => {
            proof {
                JsonValue::Object(fields).lemma_model_parts();
            }
            let mut fields = fields;
            set_member(&mut fields, "tavily", tav);
            let c = JsonValue::Object(fields);
            proof {
                c.lemma_model_parts();
            }
            c
        },
        other => other,
    };
    llm_request(AgentKind::Reader, r)
}

/// Decides an agent's step after the language model replied to `request`.
pub fn after_reply(k: AgentKind, request: &LlmRequest, reply: JsonValue) -> (r: ExecStep)
    requires
        reply_readable(k, reply.model()),
    ensures
        r.model() == next_step(k, request_model(*request), reply.model()),
{
    if k == AgentKind::Reader || k == AgentKind::Critic {
        let found = match &reply {
            JsonValue::Str(s) => detect_inter_agent_request(s.as_str()),
            _ => None,
        };
        match found {
            Some((role, msg)) => ExecStep::AskFinal(
                LlmRequest { role, instruction: msg, context: request.context.deep_copy() },
            ),
            None => ExecStep::Finish(reply),
        }
    } else if k == AgentKind::Answer {
        match reply {
            JsonValue::Str(s) => ExecStep::Finish(JsonValue::Str(s)),
            other => ExecStep::FinishWithText(other),
        }
    } else {
        ExecStep::Finish(reply)
    }
}

/// What an agent's post-processing decides: the edge to follow, its message, and
/// the transcript line recorded with its event.
#[derive(Debug, PartialEq)]
pub struct ProcessOutcome {
    pub state: MyState,
    pub message: String,
    pub update: Option<TranscriptUpdate>,
}

/// Whether an agent keeps a successful result: the Analyst refuses a blocked one.
pub open spec fn accepts(k: AgentKind, v: Json) -> bool {
    k != AgentKind::Analyst || v.get("blocked"@) is None
}

/// The value an agent stores for its result: the Reader completes its claims' evidence.
pub open spec fn stored_value(k: AgentKind, v: Json) -> Json {
    if k == AgentKind::Reader {
        normalized_claims(v)
    } else {
        v
    }
}

/// The context with an agent's output stored, before the transcript line.
pub open spec fn with_output(k: AgentKind, ctx: Seq<(Seq<char>, Json)>, v: Json) -> Seq<(Seq<char>, Json)> {
    with_member(ctx, output_key(k), stored_value(k, v))
}

/// The context after an agent records its output: stored, then noted in the transcript.
pub open spec fn recorded(k: AgentKind, ctx: Seq<(Seq<char>, Json)>, v: Json) -> Seq<(Seq<char>, Json)> {
    let mid = with_output(k, ctx, v);
    with_transcript_entry(mid, transcript_entry(mid, agent_label(k), output_key(k)))
}

/// The model of an agent's result: a value, or a failure.
pub open spec fn result_model(result: Result<JsonValue, String>) -> Option<Json> {
    match result {
        Ok(v) => Some(v.model()),
        Err(_) => None,
    }
}

/// What recording an agent's result does: a kept value is stored under the
/// agent's key and noted in the transcript, and the pipeline goes on along
/// `success`; a failure, or a blocked analysis, leaves the context as it is and
/// ends along `failure`.
pub open spec fn post_processed(
    k: AgentKind,
    before: Seq<(Seq<char>, Json)>,
    after: Seq<(Seq<char>, Json)>,
    result: Option<Json>,
    ts_ms: nat,
    r: ProcessOutcome,
) -> bool {
    match result {
        Some(v) if accepts(k, v) => {
            &&& after == recorded(k, before, v)
            &&& r.state == MyState::Success
            &&& r.message@ == "success"@
            &&& r.update matches Some(u) && u.entry.model() == transcript_entry(
                with_output(k, before, v),
                agent_label(k),
                output_key(k),
            ) && u.event.model() == transcript_event(after, agent_label(k), output_key(k), ts_ms)
        },
        _ => {
            &&& after == before
            &&& r.state == MyState::Failure
            &&& r.message@ == "failure"@
            &&& r.update is None
        },
    }
}

/// Records an agent's result in the context.
pub fn post_process(k: AgentKind, ctx: &mut LabContext, result: &Result<JsonValue, String>, ts_ms: u128) -> (r: ProcessOutcome)
    ensures
        post_processed(k, old(ctx)@, final(ctx)@, result_model(*result), ts_ms as nat, r),
{
    match result {
        Ok(v) => {
            if k == AgentKind::Analyst && v.get("blocked").is_some() {
                return ProcessOutcome {
                    state: MyState::Failure,
                    message: String::from_str("failure"),
                    update: None,
                };
            }
            let stored = if k == AgentKind::Reader {
                normalize_claims(v)
            } else {
                v.deep_copy()
            };
            let key = k.output_key_str();
            ctx.set(key, stored);
            let update = append_transcript(ctx, k.agent_label_str(), key, ts_ms);
            ProcessOutcome {
                state: MyState::Success,
                message: String::from_str("success"),
                update: Some(update),
            }
        },
        Err(_) => ProcessOutcome {
            state: MyState::Failure,
            message: String::from_str("failure"),
            update: None,
        },
    }
}

} // verus!
