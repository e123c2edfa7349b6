use vstd::prelude::*;
use crate::agents::AgentKind;

verus! {

/// How an agent's step ended; the pipeline moves on along the edge of that name.
#[derive(Clone, Copy, Debug, PartialEq, Eq, Structural)]
pub enum MyState {
    Success,
    Failure,
    Default,
}

impl MyState {
    /// The name of the edge that this outcome follows.
    pub open spec fn condition(self) -> Seq<char> {
        match self {
            MyState::Success => "success"@,
            MyState::Failure => "failure"@,
            MyState::Default => "default"@,
        }
    }

    /// The name of the edge that this outcome follows.
    pub fn to_condition(&self) -> (r: String)
        ensures
            r@ == self.condition(),
    {
        match self {
            MyState::Success => String::from_str("success"),
            MyState::Failure => String::from_str("failure"),
            MyState::Default => String::from_str("default"),
        }
    }

    /// Whether this is the default outcome.
    pub fn is_default(&self) -> (r: bool)
        ensures
            r == (*self == MyState::Default),
    {
        match self {
            MyState::Default => true,
            _ => false,
        }
    }
}

/// The name of a stage of the research pipeline.
pub open spec fn stage_name(k: AgentKind) -> Seq<char> {
    match k {
        AgentKind::Goal => "goal"@,
        AgentKind::Reader => "reader"@,
        AgentKind::Critic => "critic"@,
        AgentKind::Planner => "planner"@,
        AgentKind::Statistician => "stat"@,
        AgentKind::Ethics => "ethics"@,
        AgentKind::Analyst => "analyst"@,
        AgentKind::Synthesis => "pi"@,
        AgentKind::Postdoc => "postdoc"@,
        AgentKind::FinalReport => "final_report"@,
        _ => Seq::empty(),
    }
}

/// The stages of the research pipeline, in the order they run.
pub open spec fn pipeline_order() -> Seq<AgentKind> {
    seq![AgentKind::Goal, AgentKind::Reader, AgentKind::Critic, AgentKind::Planner, AgentKind::Statistician, AgentKind::Ethics, AgentKind::Analyst, AgentKind::Synthesis, AgentKind::Postdoc, AgentKind::FinalReport]
}

/// The stage that follows `k` when it succeeds.
pub open spec fn next_on_success(k: AgentKind) -> Option<AgentKind> {
    match k {
        AgentKind::Goal => Some(AgentKind::Reader),
        AgentKind::Reader => Some(AgentKind::Critic),
        AgentKind::Critic => Some(AgentKind::Planner),
        AgentKind::Planner => Some(AgentKind::Statistician),
        AgentKind::Statistician => Some(AgentKind::Ethics),
        AgentKind::Ethics => Some(AgentKind::Analyst),
        AgentKind::Analyst => Some(AgentKind::Synthesis),
        AgentKind::Synthesis => Some(AgentKind::Postdoc),
        AgentKind::Postdoc => Some(AgentKind::FinalReport),
        _ => None,
    }
}

/// The stage that the pipeline moves to from `k` after outcome `state`: the next
/// stage on success; no stage after any other outcome, which ends the run.
pub open spec fn edge_target(k: AgentKind, state: MyState) -> Option<AgentKind> {
    if state == MyState::Success {
        next_on_success(k)
    } else {
        None
    }
}

impl AgentKind {
    /// The name of this stage of the research pipeline.
    pub fn stage_name_str(self) -> (r: &'static str)
        ensures
            r@ == stage_name(self),
    {
        proof {
            reveal_strlit("");
        }
        match self {
            AgentKind::Goal => "goal",
            AgentKind::Reader => "reader",
            AgentKind::Critic => "critic",
            AgentKind::Planner => "planner",
            AgentKind::Statistician => "stat",
            AgentKind::Ethics => "ethics",
            AgentKind::Analyst => "analyst",
            AgentKind::Synthesis => "pi",
            AgentKind::Postdoc => "postdoc",
            AgentKind::FinalReport => "final_report",
            _ => "",
        }
    }

    /// The stage that follows this one when it succeeds.
    pub fn successor(self) -> (r: Option<AgentKind>)
        ensures
            r == next_on_success(self),
    {
        match self {
            AgentKind::Goal => Some(AgentKind::Reader),
            AgentKind::Reader => Some(AgentKind::Critic),
            AgentKind::Critic => Some(AgentKind::Planner),
            AgentKind::Planner => Some(AgentKind::Statistician),
            AgentKind::Statistician => Some(AgentKind::Ethics),
            AgentKind::Ethics => Some(AgentKind::Analyst),
            AgentKind::Analyst => Some(AgentKind::Synthesis),
            AgentKind::Synthesis => Some(AgentKind::Postdoc),
            AgentKind::Postdoc => Some(AgentKind::FinalReport),
            _ => None,
        }
    }
}

/// No two stages of the pipeline share a name.
pub proof fn lemma_stage_names_distinct()
    ensures
        forall|i: int, j: int|
            0 <= i < 10 && 0 <= j < 10 && i != j ==> stage_name(#[trigger] pipeline_order()[i]) != stage_name(
                #[trigger] pipeline_order()[j],
            ),
{
    reveal_strlit("goal");
    reveal_strlit("reader");
    reveal_strlit("critic");
    reveal_strlit("planner");
    reveal_strlit("stat");
    reveal_strlit("ethics");
    reveal_strlit("analyst");
    reveal_strlit("pi");
    reveal_strlit("postdoc");
    reveal_strlit("final_report");
    let p = pipeline_order();
    let tag = |k: AgentKind| (stage_name(k)[0], stage_name(k)[1]);
    assert(tag(p[0]) == ('g', 'o'));
    assert(tag(p[1]) == ('r', 'e'));
    assert(tag(p[2]) == ('c', 'r'));
    assert(tag(p[3]) == ('p', 'l'));
    assert(tag(p[4]) == ('s', 't'));
    assert(tag(p[5]) == ('e', 't'));
    assert(tag(p[6]) == ('a', 'n'));
    assert(tag(p[7]) == ('p', 'i'));
    assert(tag(p[8]) == ('p', 'o'));
    assert(tag(p[9]) == ('f', 'i'));
    assert forall|i: int, j: int|
        0 <= i < 10 && 0 <= j < 10 && i != j implies stage_name(#[trigger] p[i]) != stage_name(#[trigger] p[j]) by {
        assert(tag(p[i]) != tag(p[j]));
    }
}

/// The stages of the research pipeline, in the order they run; the first is the start.
pub fn pipeline() -> (r: Vec<AgentKind>)
    ensures
        r@ == pipeline_order(),
{
    let r = vec![AgentKind::Goal, AgentKind::Reader, AgentKind::Critic, AgentKind::Planner, AgentKind::Statistician, AgentKind::Ethics, AgentKind::Analyst, AgentKind::Synthesis, AgentKind::Postdoc, AgentKind::FinalReport];
    assert(r@ =~= pipeline_order());
    r
}

/// The pipeline is a single chain: it starts at the Goal stage, each stage's
/// success leads to the stage after it, the last stage has no successor, and no
/// outcome but success leads anywhere.
pub proof fn lemma_pipeline_is_a_chain()
    ensures
        pipeline_order().len() == 10,
        pipeline_order()[0] == AgentKind::Goal,
        forall|i: int| 0 <= i < 9 ==> next_on_success(#[trigger] pipeline_order()[i]) == Some(pipeline_order()[i + 1]),
        next_on_success(pipeline_order()[9]) is None,
        forall|k: AgentKind, s: MyState| s != MyState::Success ==> #[trigger] edge_target(k, s) is None,
{
    assert forall|i: int| 0 <= i < 9 implies next_on_success(#[trigger] pipeline_order()[i]) == Some(pipeline_order()[i + 1]) by {
        if i == 0 {} else if i == 1 {} else if i == 2 {} else if i == 3 {} else if i == 4 {} else if i == 5 {} else if i == 6 {} else if i == 7 {} else {}
    }
}

} // verus!
