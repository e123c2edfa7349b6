use research_lab::agents::{context_snapshot, AgentKind, ExecStep, LlmRequest};
use research_lab::context::LabContext;
use research_lab::flow::{pipeline, MyState};
use research_lab::json::JsonValue;
use research_lab::llm::{
    chat_model, prompt_only_value, reply_value, report_artifact, search_result, stub_reply, system_prompt,
    user_prompt,
};
use research_lab::nodes::{
    AnalystNode, AnswerNode, CriticNode, FinalReportNode, GetQuestionNode, GoalNode, PlannerNode,
    ReaderNode,
};

fn s(x: &str) -> JsonValue {
    JsonValue::Str(x.to_string())
}

fn obj(fields: Vec<(&str, JsonValue)>) -> JsonValue {
    JsonValue::Object(fields.into_iter().map(|(k, v)| (k.to_string(), v)).collect())
}

fn request(role: &str, instruction: &str, context: JsonValue) -> LlmRequest {
    LlmRequest { role: role.to_string(), instruction: instruction.to_string(), context }
}

#[test]
fn snapshot_keeps_only_known_entries_in_order() {
    let mut ctx = LabContext::new();
    ctx.set("run_id", s("r"));
    ctx.set("plan", s("p"));
    ctx.set("goal", s("g"));
    ctx.set("transcript", JsonValue::Array(vec![]));
    assert_eq!(context_snapshot(&ctx), obj(vec![("goal", s("g")), ("plan", s("p"))]));
}

#[test]
fn goal_agent_asks_the_pi() {
    let mut ctx = LabContext::new();
    ctx.set("goal", obj(vec![("title", s("sleep"))]));
    let step = GoalNode.plan(&ctx);
    assert_eq!(
        step,
        ExecStep::Ask(request(
            "PI",
            "Define or refine the current research goal. Return JSON: { title, rationale }.",
            obj(vec![("goal", obj(vec![("title", s("sleep"))]))]),
        ))
    );
}

#[test]
fn reader_searches_the_goal_title_then_asks() {
    let mut ctx = LabContext::new();
    assert_eq!(
        ReaderNode.plan(&ctx),
        ExecStep::Search { query: "current research topic".to_string(), max_results: 5 }
    );
    ctx.set("goal", obj(vec![("title", s("coffee and sleep"))]));
    assert_eq!(
        ReaderNode.plan(&ctx),
        ExecStep::Search { query: "coffee and sleep".to_string(), max_results: 5 }
    );
    let req = ReaderNode.after_search(&ctx, None);
    assert_eq!(req.role, "Reader");
    assert_eq!(
        req.context,
        obj(vec![
            ("goal", obj(vec![("title", s("coffee and sleep"))])),
            ("tavily", obj(vec![("results", JsonValue::Array(vec![]))])),
        ])
    );
    let req2 = ReaderNode.after_search(&ctx, Some(s("found")));
    assert_eq!(req2.context.get("tavily"), Some(&s("found")));
}

#[test]
fn critic_forwards_a_request_to_another_role() {
    let req = request("Critic", "review", obj(vec![]));
    let step = CriticNode.after_reply(&req, s("role: Statistician, msg: check power"));
    assert_eq!(step, ExecStep::AskFinal(request("Statistician", "check power", obj(vec![]))));
    let step2 = CriticNode.after_reply(&req, s("looks fine"));
    assert_eq!(step2, ExecStep::Finish(s("looks fine")));
    let step3 = PlannerNode.after_reply(&req, s("role: Statistician, msg: check power"));
    assert_eq!(step3, ExecStep::Finish(s("role: Statistician, msg: check power")));
}

#[test]
fn answer_agent_asks_with_prompt_only_and_finishes_with_text() {
    let mut ctx = LabContext::new();
    ctx.set("question", s("why?"));
    assert_eq!(
        AnswerNode.plan(&ctx),
        ExecStep::Ask(request("general", "why?", obj(vec![("prompt_only", JsonValue::Bool(true))])))
    );
    let req = request("general", "why?", prompt_only_value());
    assert_eq!(AnswerNode.after_reply(&req, s("because")), ExecStep::Finish(s("because")));
    assert_eq!(
        AnswerNode.after_reply(&req, JsonValue::Bool(true)),
        ExecStep::FinishWithText(JsonValue::Bool(true))
    );
}

#[test]
fn analyst_is_blocked_without_approvals() {
    let mut ctx = LabContext::new();
    ctx.set("statistical_approval", JsonValue::Bool(true));
    let step = AnalystNode.plan(&ctx);
    let blocked = obj(vec![("blocked", s("approvals_missing"))]);
    assert_eq!(step, ExecStep::Finish(blocked.deep_copy()));
    let out = AnalystNode.post_process(&mut ctx, &Ok(blocked), 5);
    assert_eq!(out.state, MyState::Failure);
    assert_eq!(out.message, "failure");
    assert!(out.update.is_none());
    assert!(ctx.get("analysis_result").is_none());
    ctx.set("ethics_approval", JsonValue::Bool(true));
    match AnalystNode.plan(&ctx) {
        ExecStep::Ask(r) => assert_eq!(r.role, "Analyst"),
        other => panic!("unexpected step {:?}", other),
    }
}

#[test]
fn post_process_records_output_and_transcript() {
    let mut ctx = LabContext::new();
    ctx.set("run_id", s("run-7"));
    let out = PlannerNode.post_process(&mut ctx, &Ok(s("plan A")), 1000);
    assert_eq!(out.state, MyState::Success);
    assert_eq!(out.message, "success");
    assert_eq!(ctx.get("plan"), Some(&s("plan A")));
    let line = obj(vec![("agent", s("Planner")), ("field", s("plan")), ("value", s("plan A"))]);
    assert_eq!(ctx.get("transcript"), Some(&JsonValue::Array(vec![line.deep_copy()])));
    let u = out.update.unwrap();
    assert_eq!(u.entry, line);
    assert_eq!(u.event.get("run_id"), Some(&s("run-7")));
    assert_eq!(u.event.get("ts_ms"), Some(&JsonValue::Number("1000".to_string())));
}

#[test]
fn post_process_failure_leaves_context() {
    let mut ctx = LabContext::new();
    ctx.set("goal", s("g"));
    let out = GoalNode.post_process(&mut ctx, &Err("no model".to_string()), 1);
    assert_eq!(out.state, MyState::Failure);
    assert_eq!(ctx.entries().len(), 1);
}

#[test]
fn reader_post_process_completes_evidence() {
    let mut ctx = LabContext::new();
    let v = obj(vec![("claims", JsonValue::Array(vec![obj(vec![("id", s("1"))])]))]);
    ReaderNode.post_process(&mut ctx, &Ok(v), 3);
    assert_eq!(
        ctx.get("claims"),
        Some(&obj(vec![(
            "claims",
            JsonValue::Array(vec![obj(vec![
                ("id", s("1")),
                ("evidence", obj(vec![("url", s("")), ("snippet", s(""))])),
            ])])
        )]))
    );
}

#[test]
fn question_is_trimmed_and_recorded_for_the_user() {
    assert_eq!(GetQuestionNode.question("  what is sleep?\n"), s("what is sleep?"));
    let mut ctx = LabContext::new();
    GetQuestionNode.post_process(&mut ctx, &Ok(s("q")), 0);
    assert_eq!(
        ctx.get("transcript"),
        Some(&JsonValue::Array(vec![obj(vec![("agent", s("User")), ("field", s("question")), ("value", s("q"))])]))
    );
}

#[test]
fn final_report_sections_html_and_path() {
    let mut ctx = LabContext::new();
    ctx.set("plan", s("p"));
    let sections = FinalReportNode.sections(&ctx);
    assert_eq!(sections.len(), 10);
    assert_eq!(sections[0], obj(vec![]));
    assert_eq!(sections[3], s("p"));
    assert_eq!(sections[9], JsonValue::Array(vec![]));
    let texts: Vec<String> = (0..10).map(|i| format!("T{}", i)).collect();
    let html = FinalReportNode.html(&texts);
    let expected = format!(r#"<!DOCTYPE html>
<html><head><meta charset='utf-8'><title>Final Survey Report</title>
<style>body{{font-family:sans-serif;}} h1,h2{{margin-top:1em;}} pre{{white-space:pre-wrap;}}</style>
</head><body>
<h1>Final Survey Report</h1>
<h2>Goal</h2><pre>{}</pre>
<h2>Claims</h2><pre>{}</pre>
<h2>Critic Review</h2><pre>{}</pre>
<h2>Plan</h2><pre>{}</pre>
<h2>Approvals</h2><pre>Statistical: {}\nEthics: {}</pre>
<h2>Analysis</h2><pre>{}</pre>
<h2>PI Synthesis</h2><pre>{}</pre>
<h2>Postdoc Draft</h2><pre>{}</pre>
<h2>Transcript</h2><pre>{}</pre>
</body></html>"#, "T0", "T1", "T2", "T3", "T4", "T5", "T6", "T7", "T8", "T9");
    assert_eq!(html, expected);
    assert_eq!(FinalReportNode.report_path(1725029869), "data/artifacts/reports/final_1725029869.pdf");
    assert_eq!(FinalReportNode.report_html_path(1725029869), "data/artifacts/reports/final_1725029869.html");
}

#[test]
fn report_html_path_sets_the_extension_as_path_buf_does() {
    for ts in [0u64, 7, 1725029869, u64::MAX] {
        let mut expected = std::path::PathBuf::from(FinalReportNode.report_path(ts));
        expected.set_extension("html");
        assert_eq!(FinalReportNode.report_html_path(ts), expected.to_string_lossy());
    }
}

#[test]
fn chat_model_name() {
    assert_eq!(chat_model(), "gpt-4");
}

#[test]
fn prompts_and_replies() {
    assert_eq!(
        system_prompt("Critic"),
        "You are the Critic agent in a multi-agent research lab. Follow your role strictly. Use and update shared state when appropriate."
    );
    assert_eq!(
        user_prompt("Do it.", "{}"),
        "Instruction:\nDo it.\n\nShared State (JSON):\n{}\n\nRespond with concise JSON representing your output."
    );
    assert_eq!(
        stub_reply("PI", "go"),
        obj(vec![
            ("role", s("PI")),
            ("note", s("stubbed response (set OPENAI_API_KEY to enable real calls)")),
            ("result", s("go")),
        ])
    );
    assert_eq!(reply_value("not json", None), s("not json"));
    assert_eq!(reply_value("true", Some(JsonValue::Bool(true))), JsonValue::Bool(true));
}

#[test]
fn search_and_report_records() {
    assert_eq!(
        search_result("sleep", 5, true),
        obj(vec![
            ("query", s("sleep")),
            ("note", s("tavily response available (not serialized)")),
            ("max_results", JsonValue::Number("5".to_string())),
        ])
    );
    assert_eq!(
        search_result("sleep", 5, false),
        obj(vec![
            ("note", s("tavily stubbed (set TAVILY_API_KEY)")),
            ("query", s("sleep")),
            ("results", JsonValue::Array(vec![])),
        ])
    );
    assert_eq!(report_artifact("a.pdf", "a.html", true), obj(vec![("artifact", s("a.pdf")), ("kind", s("pdf"))]));
    assert_eq!(
        report_artifact("a.pdf", "a.html", false),
        obj(vec![
            ("artifact", s("a.html")),
            ("kind", s("html")),
            ("note", s("wkhtmltopdf not available; saved HTML instead")),
        ])
    );
}

#[test]
fn pipeline_is_a_chain_of_named_stages() {
    let p = pipeline();
    assert_eq!(p.len(), 10);
    assert_eq!(p[0], AgentKind::Goal);
    let names: Vec<&str> = p.iter().map(|k| k.stage_name_str()).collect();
    assert_eq!(
        names,
        vec!["goal", "reader", "critic", "planner", "stat", "ethics", "analyst", "pi", "postdoc", "final_report"]
    );
    for i in 0..9 {
        assert_eq!(p[i].successor(), Some(p[i + 1]));
    }
    assert_eq!(p[9].successor(), None);
    assert_eq!(MyState::Success.to_condition(), "success");
    assert_eq!(MyState::Failure.to_condition(), "failure");
    assert!(MyState::Default.is_default());
}
