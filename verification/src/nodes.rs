use vstd::prelude::*;
use crate::agents::{
    after_reply, next_step, plan_step, planned_step, post_process, post_processed,
    reader_request, reply_readable, request_model, result_model, searched_request, snapshot_key_strs,
    snapshot_keys, AgentKind, ExecStep, LlmRequest, ProcessOutcome,
};
use crate::context::LabContext;
use crate::json::{member, Json, JsonValue};
use crate::text::{decimal, push_decimal, trim, trim_str};

verus! {

/// Answers the stored question with the language model.
pub struct AnswerNode;

impl AnswerNode {
    /// The agent this node plays.
    pub fn kind(&self) -> (r: AgentKind)
        ensures
            r == AgentKind::Answer,
    {
        AgentKind::Answer
    }

    /// The first step of this agent's work, decided from the context.
    pub fn plan(&self, ctx: &LabContext) -> (r: ExecStep)
        ensures
            r.model() == planned_step(AgentKind::Answer, ctx@),
    {
        plan_step(AgentKind::Answer, ctx)
    }

    /// The step after the language model replied to `request`.
    pub fn after_reply(&self, request: &LlmRequest, reply: JsonValue) -> (r: ExecStep)
        requires
            reply_readable(AgentKind::Answer, reply.model()),
        ensures
            r.model() == next_step(AgentKind::Answer, request_model(*request), reply.model()),
    {
        after_reply(AgentKind::Answer, request, reply)
    }

    /// Records this agent's result in the context.
    pub fn post_process(&self, ctx: &mut LabContext, result: &Result<JsonValue, String>, ts_ms: u128) -> (r: ProcessOutcome)
        ensures
            post_processed(AgentKind::Answer, old(ctx)@, final(ctx)@, result_model(*result), ts_ms as nat, r),
    {
        post_process(AgentKind::Answer, ctx, result, ts_ms)
    }
}

/// The PI: defines or refines the research goal.
pub struct GoalNode;

impl GoalNode {
    /// The agent this node plays.
    pub fn kind(&self) -> (r: AgentKind)
        ensures
            r == AgentKind::Goal,
    {
        AgentKind::Goal
    }

    /// The first step of this agent's work, decided from the context.
    pub fn plan(&self, ctx: &LabContext) -> (r: ExecStep)
        ensures
            r.model() == planned_step(AgentKind::Goal, ctx@),
    {
        plan_step(AgentKind::Goal, ctx)
    }

    /// The step after the language model replied to `request`.
    pub fn after_reply(&self, request: &LlmRequest, reply: JsonValue) -> (r: ExecStep)
        requires
            reply_readable(AgentKind::Goal, reply.model()),
        ensures
            r.model() == next_step(AgentKind::Goal, request_model(*request), reply.model()),
    {
        after_reply(AgentKind::Goal, request, reply)
    }

    /// Records this agent's result in the context.
    pub fn post_process(&self, ctx: &mut LabContext, result: &Result<JsonValue, String>, ts_ms: u128) -> (r: ProcessOutcome)
        ensures
            post_processed(AgentKind::Goal, old(ctx)@, final(ctx)@, result_model(*result), ts_ms as nat, r),
    {
        post_process(AgentKind::Goal, ctx, result, ts_ms)
    }
}

/// The Reader: searches the web on the goal and extracts claims with evidence.
pub struct ReaderNode;

impl ReaderNode {
    /// The agent this node plays.
    pub fn kind(&self) -> (r: AgentKind)
        ensures
            r == AgentKind::Reader,
    {
        AgentKind::Reader
    }

    /// The first step of this agent's work, decided from the context.
    pub fn plan(&self, ctx: &LabContext) -> (r: ExecStep)
        ensures
            r.model() == planned_step(AgentKind::Reader, ctx@),
    {
        plan_step(AgentKind::Reader, ctx)
    }

    /// The request to the language model once the web search is done (`None` where it failed).
    pub fn after_search(&self, ctx: &LabContext, found: Option<JsonValue>) -> (r: LlmRequest)
        ensures
            request_model(r) == searched_request(
                ctx@,
                match found {
                    Some(j) => Some(j.model()),
                    None => None,
                },
            ),
    {
        reader_request(ctx, found)
    }

    /// The step after the language model replied to `request`.
    pub fn after_reply(&self, request: &LlmRequest, reply: JsonValue) -> (r: ExecStep)
        requires
            reply_readable(AgentKind::Reader, reply.model()),
        ensures
            r.model() == next_step(AgentKind::Reader, request_model(*request), reply.model()),
    {
        after_reply(AgentKind::Reader, request, reply)
    }

    /// Records this agent's result in the context.
    pub fn post_process(&self, ctx: &mut LabContext, result: &Result<JsonValue, String>, ts_ms: u128) -> (r: ProcessOutcome)
        ensures
            post_processed(AgentKind::Reader, old(ctx)@, final(ctx)@, result_model(*result), ts_ms as nat, r),
    {
        post_process(AgentKind::Reader, ctx, result, ts_ms)
    }
}

/// The Critic: reviews the claims, and may pass a request on to another role.
pub struct CriticNode;

impl CriticNode {
    /// The agent this node plays.
    pub fn kind(&self) -> (r: AgentKind)
        ensures
            r == AgentKind::Critic,
    {
        AgentKind::Critic
    }

    /// The first step of this agent's work, decided from the context.
    pub fn plan(&self, ctx: &LabContext) -> (r: ExecStep)
        ensures
            r.model() == planned_step(AgentKind::Critic, ctx@),
    {
        plan_step(AgentKind::Critic, ctx)
    }

    /// The step after the language model replied to `request`.
    pub fn after_reply(&self, request: &LlmRequest, reply: JsonValue) -> (r: ExecStep)
        requires
            reply_readable(AgentKind::Critic, reply.model()),
        ensures
            r.model() == next_step(AgentKind::Critic, request_model(*request), reply.model()),
    {
        after_reply(AgentKind::Critic, request, reply)
    }

    /// Records this agent's result in the context.
    pub fn post_process(&self, ctx: &mut LabContext, result: &Result<JsonValue, String>, ts_ms: u128) -> (r: ProcessOutcome)
        ensures
            post_processed(AgentKind::Critic, old(ctx)@, final(ctx)@, result_model(*result), ts_ms as nat, r),
    {
        post_process(AgentKind::Critic, ctx, result, ts_ms)
    }
}

/// The Planner: drafts an experiment plan.
pub struct PlannerNode;

impl PlannerNode {
    /// The agent this node plays.
    pub fn kind(&self) -> (r: AgentKind)
        ensures
            r == AgentKind::Planner,
    {
        AgentKind::Planner
    }

    /// The first step of this agent's work, decided from the context.
    pub fn plan(&self, ctx: &LabContext) -> (r: ExecStep)
        ensures
            r.model() == planned_step(AgentKind::Planner, ctx@),
    {
        plan_step(AgentKind::Planner, ctx)
    }

    /// The step after the language model replied to `request`.
    pub fn after_reply(&self, request: &LlmRequest, reply: JsonValue) -> (r: ExecStep)
        requires
            reply_readable(AgentKind::Planner, reply.model()),
        ensures
            r.model() == next_step(AgentKind::Planner, request_model(*request), reply.model()),
    {
        after_reply(AgentKind::Planner, request, reply)
    }

    /// Records this agent's result in the context.
    pub fn post_process(&self, ctx: &mut LabContext, result: &Result<JsonValue, String>, ts_ms: u128) -> (r: ProcessOutcome)
        ensures
            post_processed(AgentKind::Planner, old(ctx)@, final(ctx)@, result_model(*result), ts_ms as nat, r),
    {
        post_process(AgentKind::Planner, ctx, result, ts_ms)
    }
}

/// The Statistician: judges the plan's statistics.
pub struct StatisticianApprovalNode;

impl StatisticianApprovalNode {
    /// The agent this node plays.
    pub fn kind(&self) -> (r: AgentKind)
        ensures
            r == AgentKind::Statistician,
    {
        AgentKind::Statistician
    }

    /// The first step of this agent's work, decided from the context.
    pub fn plan(&self, ctx: &LabContext) -> (r: ExecStep)
        ensures
            r.model() == planned_step(AgentKind::Statistician, ctx@),
    {
        plan_step(AgentKind::Statistician, ctx)
    }

    /// The step after the language model replied to `request`.
    pub fn after_reply(&self, request: &LlmRequest, reply: JsonValue) -> (r: ExecStep)
        requires
            reply_readable(AgentKind::Statistician, reply.model()),
        ensures
            r.model() == next_step(AgentKind::Statistician, request_model(*request), reply.model()),
    {
        after_reply(AgentKind::Statistician, request, reply)
    }

    /// Records this agent's result in the context.
    pub fn post_process(&self, ctx: &mut LabContext, result: &Result<JsonValue, String>, ts_ms: u128) -> (r: ProcessOutcome)
        ensures
            post_processed(AgentKind::Statistician, old(ctx)@, final(ctx)@, result_model(*result), ts_ms as nat, r),
    {
        post_process(AgentKind::Statistician, ctx, result, ts_ms)
    }
}

/// The Ethics agent: judges the plan's ethics.
pub struct EthicsApprovalNode;

impl EthicsApprovalNode {
    /// The agent this node plays.
    pub fn kind(&self) -> (r: AgentKind)
        ensures
            r == AgentKind::Ethics,
    {
        AgentKind::Ethics
    }

    /// The first step of this agent's work, decided from the context.
    pub fn plan(&self, ctx: &LabContext) -> (r: ExecStep)
        ensures
            r.model() == planned_step(AgentKind::Ethics, ctx@),
    {
        plan_step(AgentKind::Ethics, ctx)
    }

    /// The step after the language model replied to `request`.
    pub fn after_reply(&self, request: &LlmRequest, reply: JsonValue) -> (r: ExecStep)
        requires
            reply_readable(AgentKind::Ethics, reply.model()),
        ensures
            r.model() == next_step(AgentKind::Ethics, request_model(*request), reply.model()),
    {
        after_reply(AgentKind::Ethics, request, reply)
    }

    /// Records this agent's result in the context.
    pub fn post_process(&self, ctx: &mut LabContext, result: &Result<JsonValue, String>, ts_ms: u128) -> (r: ProcessOutcome)
        ensures
            post_processed(AgentKind::Ethics, old(ctx)@, final(ctx)@, result_model(*result), ts_ms as nat, r),
    {
        post_process(AgentKind::Ethics, ctx, result, ts_ms)
    }
}

/// The Analyst: runs the planned analysis once both approvals are in.
pub struct AnalystNode;

impl AnalystNode {
    /// The agent this node plays.
    pub fn kind(&self) -> (r: AgentKind)
        ensures
            r == AgentKind::Analyst,
    {
        AgentKind::Analyst
    }

    /// The first step of this agent's work, decided from the context.
    pub fn plan(&self, ctx: &LabContext) -> (r: ExecStep)
        ensures
            r.model() == planned_step(AgentKind::Analyst, ctx@),
    {
        plan_step(AgentKind::Analyst, ctx)
    }

    /// The step after the language model replied to `request`.
    pub fn after_reply(&self, request: &LlmRequest, reply: JsonValue) -> (r: ExecStep)
        requires
            reply_readable(AgentKind::Analyst, reply.model()),
        ensures
            r.model() == next_step(AgentKind::Analyst, request_model(*request), reply.model()),
    {
        after_reply(AgentKind::Analyst, request, reply)
    }

    /// Records this agent's result in the context.
    pub fn post_process(&self, ctx: &mut LabContext, result: &Result<JsonValue, String>, ts_ms: u128) -> (r: ProcessOutcome)
        ensures
            post_processed(AgentKind::Analyst, old(ctx)@, final(ctx)@, result_model(*result), ts_ms as nat, r),
    {
        post_process(AgentKind::Analyst, ctx, result, ts_ms)
    }
}

/// The PI: synthesises the results.
pub struct PISynthesisNode;

impl PISynthesisNode {
    /// The agent this node plays.
    pub fn kind(&self) -> (r: AgentKind)
        ensures
            r == AgentKind::Synthesis,
    {
        AgentKind::Synthesis
    }

    /// The first step of this agent's work, decided from the context.
    pub fn plan(&self, ctx: &LabContext) -> (r: ExecStep)
        ensures
            r.model() == planned_step(AgentKind::Synthesis, ctx@),
    {
        plan_step(AgentKind::Synthesis, ctx)
    }

    /// The step after the language model replied to `request`.
    pub fn after_reply(&self, request: &LlmRequest, reply: JsonValue) -> (r: ExecStep)
        requires
            reply_readable(AgentKind::Synthesis, reply.model()),
        ensures
            r.model() == next_step(AgentKind::Synthesis, request_model(*request), reply.model()),
    {
        after_reply(AgentKind::Synthesis, request, reply)
    }

    /// Records this agent's result in the context.
    pub fn post_process(&self, ctx: &mut LabContext, result: &Result<JsonValue, String>, ts_ms: u128) -> (r: ProcessOutcome)
        ensures
            post_processed(AgentKind::Synthesis, old(ctx)@, final(ctx)@, result_model(*result), ts_ms as nat, r),
    {
        post_process(AgentKind::Synthesis, ctx, result, ts_ms)
    }
}

/// The Postdoc: drafts the report.
pub struct PostdocReportNode;

impl PostdocReportNode {
    /// The agent this node plays.
    pub fn kind(&self) -> (r: AgentKind)
        ensures
            r == AgentKind::Postdoc,
    {
        AgentKind::Postdoc
    }

    /// The first step of this agent's work, decided from the context.
    pub fn plan(&self, ctx: &LabContext) -> (r: ExecStep)
        ensures
            r.model() == planned_step(AgentKind::Postdoc, ctx@),
    {
        plan_step(AgentKind::Postdoc, ctx)
    }

    /// The step after the language model replied to `request`.
    pub fn after_reply(&self, request: &LlmRequest, reply: JsonValue) -> (r: ExecStep)
        requires
            reply_readable(AgentKind::Postdoc, reply.model()),
        ensures
            r.model() == next_step(AgentKind::Postdoc, request_model(*request), reply.model()),
    {
        after_reply(AgentKind::Postdoc, request, reply)
    }

    /// Records this agent's result in the context.
    pub fn post_process(&self, ctx: &mut LabContext, result: &Result<JsonValue, String>, ts_ms: u128) -> (r: ProcessOutcome)
        ensures
            post_processed(AgentKind::Postdoc, old(ctx)@, final(ctx)@, result_model(*result), ts_ms as nat, r),
    {
        post_process(AgentKind::Postdoc, ctx, result, ts_ms)
    }
}

/// Reads the user's question from a line of input.
pub struct GetQuestionNode;

impl GetQuestionNode {
    /// The question that a line of input holds: the line, trimmed.
    pub fn question(&self, line: &str) -> (r: JsonValue)
        ensures
            r.model() == Json::Str(trim(line@)),
    {
        JsonValue::Str(trim_str(line))
    }

    /// Records this agent's result in the context.
    pub fn post_process(&self, ctx: &mut LabContext, result: &Result<JsonValue, String>, ts_ms: u128) -> (r: ProcessOutcome)
        ensures
            post_processed(AgentKind::Question, old(ctx)@, final(ctx)@, result_model(*result), ts_ms as nat, r),
    {
        post_process(AgentKind::Question, ctx, result, ts_ms)
    }
}

/// A value from the context, or `default` where the context holds none.
pub open spec fn value_or(ctx: Seq<(Seq<char>, Json)>, key: Seq<char>, default: Json) -> Json {
    match member(ctx, key) {
        Some(v) => v,
        None => default,
    }
}

/// The sections of the final report, in order: the nine snapshot entries (an empty
/// object where missing), then the transcript (an empty array where missing).
pub open spec fn report_sections_model(ctx: Seq<(Seq<char>, Json)>) -> Seq<Json> {
    snapshot_keys().map_values(|k: Seq<char>| value_or(ctx, k, Json::Object(Seq::empty()))).push(
        value_or(ctx, "transcript"@, Json::Array(Seq::empty())),
    )
}

/// The HTML page of the final report, around the JSON texts of its ten sections.
pub open spec fn report_html_text(t: Seq<Seq<char>>) -> Seq<char> {
    "<!DOCTYPE html>\n<html><head><meta charset='utf-8'><title>Final Survey Report</title>\n<style>body{font-family:sans-serif;} h1,h2{margin-top:1em;} pre{white-space:pre-wrap;}</style>\n</head><body>\n<h1>Final Survey Report</h1>\n<h2>Goal</h2><pre>"@ + t[0] + "</pre>\n<h2>Claims</h2><pre>"@ + t[1] + "</pre>\n<h2>Critic Review</h2><pre>"@ + t[2] + "</pre>\n<h2>Plan</h2><pre>"@ + t[3] + "</pre>\n<h2>Approvals</h2><pre>Statistical: "@ + t[4] + "\\nEthics: "@ + t[5] + "</pre>\n<h2>Analysis</h2><pre>"@ + t[6] + "</pre>\n<h2>PI Synthesis</h2><pre>"@ + t[7] + "</pre>\n<h2>Postdoc Draft</h2><pre>"@ + t[8] + "</pre>\n<h2>Transcript</h2><pre>"@ + t[9] + "</pre>\n</body></html>"@
}

/// The path of the final report written at `ts` (seconds since the epoch).
pub open spec fn report_path_text(ts: nat) -> Seq<char> {
    "data/artifacts/reports/final_"@ + decimal(ts) + ".pdf"@
}

/// The path of the HTML page kept beside the report written at `ts`: the report's
/// path with its extension set to "html".
pub open spec fn report_html_path_text(ts: nat) -> Seq<char> {
    "data/artifacts/reports/final_"@ + decimal(ts) + ".html"@
}

/// Assembles the final report.
pub struct FinalReportNode;

fn value_or_default(ctx: &LabContext, key: &str, default: JsonValue) -> (r: JsonValue)
    ensures
        r.model() == value_or(ctx@, key@, default.model()),
{
    match ctx.get(key) {
        Some(v) => v.deep_copy(),
        None => default,
    }
}

fn empty_object() -> (r: JsonValue)
    ensures
        r.model() == Json::Object(Seq::empty()),
{
    let r = JsonValue::Object(Vec::new());
    proof {
        r.lemma_model_parts();
        assert(r.model()->Object_0 =~= Seq::<(Seq<char>, Json)>::empty());
    }
    r
}

fn empty_array() -> (r: JsonValue)
    ensures
        r.model() == Json::Array(Seq::empty()),
{
    let r = JsonValue::Array(Vec::new());
    proof {
        r.lemma_model_parts();
        assert(r.model()->Array_0 =~= Seq::<Json>::empty());
    }
    r
}

impl FinalReportNode {
    /// The sections of the report, read from the context.
    pub fn sections(&self, ctx: &LabContext) -> (r: Vec<JsonValue>)
        ensures
            r@.len() == 10,
            forall|i: int| 0 <= i < 10 ==> (#[trigger] r@[i]).model() == report_sections_model(ctx@)[i],
    {
        let keys: Vec<&'static str> = vec![
            "goal",
            "claims",
            "critic_review",
            "plan",
            "statistical_approval",
            "ethics_approval",
            "analysis_result",
            "pi_synthesis",
            "report_draft",
        ];
        assert(keys@ == snapshot_key_strs());
        let mut out: Vec<JsonValue> = Vec::new();
        let mut i: usize = 0;
        while i < keys.len()
            invariant
                keys@ == snapshot_key_strs(),
                i <= keys.len(),
                out.len() == i,
                forall|j: int| 0 <= j < i ==> (#[trigger] out@[j]).model() == report_sections_model(ctx@)[j],
            decreases keys.len() - i,
        {
            out.push(value_or_default(ctx, keys[i], empty_object()));
            i = i + 1;
        }
        out.push(value_or_default(ctx, "transcript", empty_array()));
        out
    }

    /// The HTML page of the report, around the JSON texts of its ten sections.
    pub fn html(&self, texts: &Vec<String>) -> (r: String)
        requires
            texts.len() == 10,
        ensures
            r@ == report_html_text(texts@.map_values(|s: String| s@)),
    {
        let mut r = String::from_str("<!DOCTYPE html>\n<html><head><meta charset='utf-8'><title>Final Survey Report</title>\n<style>body{font-family:sans-serif;} h1,h2{margin-top:1em;} pre{white-space:pre-wrap;}</style>\n</head><body>\n<h1>Final Survey Report</h1>\n<h2>Goal</h2><pre>");
        r.append(texts[0].as_str());
        r.append("</pre>\n<h2>Claims</h2><pre>");
        r.append(texts[1].as_str());
        r.append("</pre>\n<h2>Critic Review</h2><pre>");
        r.append(texts[2].as_str());
        r.append("</pre>\n<h2>Plan</h2><pre>");
        r.append(texts[3].as_str());
        r.append("</pre>\n<h2>Approvals</h2><pre>Statistical: ");
        r.append(texts[4].as_str());
        r.append("\\nEthics: ");
        r.append(texts[5].as_str());
        r.append("</pre>\n<h2>Analysis</h2><pre>");
        r.append(texts[6].as_str());
        r.append("</pre>\n<h2>PI Synthesis</h2><pre>");
        r.append(texts[7].as_str());
        r.append("</pre>\n<h2>Postdoc Draft</h2><pre>");
        r.append(texts[8].as_str());
        r.append("</pre>\n<h2>Transcript</h2><pre>");
        r.append(texts[9].as_str());
        r.append("</pre>\n</body></html>");
        r
    }

    /// The path of the report written at `ts` (seconds since the epoch).
    pub fn report_path(&self, ts: u64) -> (r: String)
        ensures
            r@ == report_path_text(ts as nat),
    {
        let mut r = String::from_str("data/artifacts/reports/final_");
        push_decimal(&mut r, ts as u128);
        r.append(".pdf");
        r
    }

    /// The path of the HTML page kept beside the report written at `ts`: the
    /// report's path with its extension "pdf" replaced by "html".
    pub fn report_html_path(&self, ts: u64) -> (r: String)
        ensures
            r@ == report_html_path_text(ts as nat),
            r@ == report_path_text(ts as nat).drop_last().drop_last().drop_last() + "html"@,
    {
        let mut r = String::from_str("data/artifacts/reports/final_");
        push_decimal(&mut r, ts as u128);
        r.append(".html");
        proof {
            reveal_strlit(".pdf");
            reveal_strlit(".html");
            reveal_strlit("html");
            let p = "data/artifacts/reports/final_"@ + decimal(ts as nat);
            assert(report_path_text(ts as nat).drop_last().drop_last().drop_last() =~= p + seq!['.']);
            assert(r@ =~= p + seq!['.'] + "html"@);
        }
        r
    }

    /// Records this agent's result in the context.
    pub fn post_process(&self, ctx: &mut LabContext, result: &Result<JsonValue, String>, ts_ms: u128) -> (r: ProcessOutcome)
        ensures
            post_processed(AgentKind::FinalReport, old(ctx)@, final(ctx)@, result_model(*result), ts_ms as nat, r),
    {
        post_process(AgentKind::FinalReport, ctx, result, ts_ms)
    }
}

} // verus!
