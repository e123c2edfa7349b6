use vstd::prelude::*;
use crate::agents::{
    accepts, agent_label, approvals_present, blocked_model, llm_role, next_step, output_key,
    planned_step, recorded,
    snapshot_keys, snapshot_model, snapshot_of, stored_value, with_output, AgentKind, StepModel,
};
use crate::claims::{
    normalized_claim, normalized_claims, normalized_evidence, with_default,
};
use crate::json::{
    lemma_member_index, lemma_with_member, lemma_with_member_same, member, with_member, Json,
};
use crate::flow::MyState;
use crate::sources::{file_source, sanitized_name, url_source};
use crate::run::{event_run, goal_model, seeded_context};
use crate::dispatch::{inter_agent_request, msg_marker, request_sliceable, role_marker};
use crate::text::{
    ascii_lower, ascii_lowercase, bytes_at, decimal, find_bytes_from, is_white_space, lowercase, trim,
    trim_start,
};
use vstd::utf8::*;
use crate::transcript::{
    run_id_of, transcript_entry, transcript_event, with_transcript_entry,
};

verus! {

proof fn lemma_with_default(fields: Seq<(Seq<char>, Json)>, key: Seq<char>, v: Json, other: Seq<char>)
    ensures
        member(with_default(fields, key, v), key) is Some,
        other != key ==> member(with_default(fields, key, v), other) == member(fields, other),
        member(fields, key) is Some ==> with_default(fields, key, v) == fields,
{
    lemma_with_member(fields, key, v, other);
}

proof fn lemma_evidence_complete(ev: Option<Json>)
    ensures
        normalized_evidence(ev) matches Json::Object(f) && member(f, "url"@) is Some && member(f, "snippet"@) is Some,
        normalized_evidence(Some(normalized_evidence(ev))) == normalized_evidence(ev),
{
    reveal_strlit("url");
    reveal_strlit("snippet");
    let e = Json::Str(Seq::empty());
    match ev {
        Some(Json::Object(f)) => {
            let f1 = with_default(f, "url"@, e);
            lemma_with_default(f, "url"@, e, "snippet"@);
            lemma_with_default(f1, "snippet"@, e, "url"@);
            let f2 = with_default(f1, "snippet"@, e);
            lemma_with_default(f2, "url"@, e, "snippet"@);
            lemma_with_default(f2, "snippet"@, e, "url"@);
        },
        _ => {
            let f: Seq<(Seq<char>, Json)> = seq![("url"@, e), ("snippet"@, e)];
            assert(f[0].0 == "url"@);
            lemma_member_index(f, "url"@);
            lemma_member_index(f, "snippet"@);
            assert(f[1].0 == "snippet"@);
            assert(f[0].0 != "snippet"@);
            crate::json::lemma_member_index_unique(f, "url"@, 0);
            crate::json::lemma_member_index_unique(f, "snippet"@, 1);
            lemma_with_default(f, "url"@, e, "snippet"@);
            lemma_with_default(f, "snippet"@, e, "url"@);
        },
    }
}

proof fn lemma_claim_complete(c: Json)
    ensures
        normalized_claim(normalized_claim(c)) == normalized_claim(c),
        c is Object ==> (normalized_claim(c) matches Json::Object(f) && member(f, "evidence"@) matches Some(Json::Object(ev))
            && member(ev, "url"@) is Some && member(ev, "snippet"@) is Some),
{
    match c {
        Json::Object(f) => {
            let e = normalized_evidence(member(f, "evidence"@));
            lemma_evidence_complete(member(f, "evidence"@));
            let f1 = with_member(f, "evidence"@, e);
            lemma_with_member(f, "evidence"@, e, "evidence"@);
            lemma_with_member_same(f1, "evidence"@, e);
        },
        _ => {},
    }
}

/// Completing the Reader's claims a second time changes nothing.
pub proof fn lemma_normalized_claims_idempotent(v: Json)
    ensures
        normalized_claims(normalized_claims(v)) == normalized_claims(v),
{
    match v {
        Json::Object(f) => match member(f, "claims"@) {
            Some(Json::Array(items)) => {
                let items1 = items.map_values(|c: Json| normalized_claim(c));
                let f1 = with_member(f, "claims"@, Json::Array(items1));
                lemma_with_member(f, "claims"@, Json::Array(items1), "claims"@);
                assert forall|i: int| 0 <= i < items1.len() implies #[trigger] normalized_claim(items1[i]) == items1[i] by {
                    lemma_claim_complete(items[i]);
                }
                assert(items1.map_values(|c: Json| normalized_claim(c)) =~= items1);
                lemma_with_member_same(f1, "claims"@, Json::Array(items1));
            },
            _ => {},
        },
        _ => {},
    }
}

/// After the Reader's output is completed, every claim that is an object carries
/// evidence that is an object with a `url` and a `snippet`.
pub proof fn lemma_normalized_claims_complete(v: Json, i: int)
    requires
        v matches Json::Object(f) && member(f, "claims"@) matches Some(Json::Array(items)) && 0 <= i
            < items.len() && items[i] is Object,
    ensures
        normalized_claims(v) matches Json::Object(f) && member(f, "claims"@) matches Some(Json::Array(items))
            && items[i] matches Json::Object(c) && member(c, "evidence"@) matches Some(Json::Object(ev))
            && member(ev, "url"@) is Some && member(ev, "snippet"@) is Some,
{
    let f = v->Object_0;
    let items = member(f, "claims"@)->0->Array_0;
    let items1 = items.map_values(|c: Json| normalized_claim(c));
    lemma_with_member(f, "claims"@, Json::Array(items1), "claims"@);
    lemma_claim_complete(items[i]);
}

/// Adding a transcript line: where the transcript is an array, or missing, the line
/// becomes its last one; the other entries of the context keep their values.
pub proof fn lemma_transcript_gains_line(ctx: Seq<(Seq<char>, Json)>, entry: Json, other: Seq<char>)
    requires
        member(ctx, "transcript"@) is None || member(ctx, "transcript"@) matches Some(Json::Array(_)),
    ensures
        member(with_transcript_entry(ctx, entry), "transcript"@) == Some(
            Json::Array(
                match member(ctx, "transcript"@) {
                    Some(Json::Array(lines)) => lines.push(entry),
                    _ => seq![entry],
                },
            ),
        ),
        other != "transcript"@ ==> member(with_transcript_entry(ctx, entry), other) == member(ctx, other),
{
    match member(ctx, "transcript"@) {
        Some(Json::Array(lines)) => {
            lemma_with_member(ctx, "transcript"@, Json::Array(lines.push(entry)), other);
        },
        _ => {
            lemma_with_member(ctx, "transcript"@, Json::Array(seq![entry]), other);
        },
    }
}

/// The shared state shown to the language model holds, of the snapshot entries,
/// exactly those the context holds, with their values.
pub proof fn lemma_snapshot_entries(ctx: Seq<(Seq<char>, Json)>, keys: Seq<Seq<char>>, k: Seq<char>)
    ensures
        member(snapshot_of(ctx, keys), k) == if keys.contains(k) {
            member(ctx, k)
        } else {
            None
        },
    decreases keys.len(),
{
    if keys.len() == 0 {
        lemma_member_index(Seq::<(Seq<char>, Json)>::empty(), k);
    } else {
        let prev = snapshot_of(ctx, keys.drop_last());
        lemma_snapshot_entries(ctx, keys.drop_last(), k);
        assert(keys =~= keys.drop_last().push(keys.last()));
        assert(keys.contains(k) == (keys.drop_last().contains(k) || keys.last() == k)) by {
            if keys.contains(k) && keys.last() != k {
                let j = choose|j: int| 0 <= j < keys.len() && keys[j] == k;
                assert(keys.drop_last()[j] == k);
            }
            if keys.drop_last().contains(k) {
                let j = choose|j: int| 0 <= j < keys.drop_last().len() && keys.drop_last()[j] == k;
                assert(keys[j] == k);
            }
            if keys.last() == k {
                assert(keys[keys.len() - 1] == k);
            }
        }
        match member(ctx, keys.last()) {
            Some(v) => {
                lemma_with_member(prev, keys.last(), v, k);
            },
            None => {},
        }
    }
}

/// The snapshot of the context: an entry of the snapshot list reads back as it is
/// in the context; anything else is absent.
pub proof fn lemma_snapshot_model(ctx: Seq<(Seq<char>, Json)>, k: Seq<char>)
    ensures
        snapshot_model(ctx).get(k) == if snapshot_keys().contains(k) {
            member(ctx, k)
        } else {
            None
        },
{
    lemma_snapshot_entries(ctx, snapshot_keys(), k);
}

/// A transcript event carries the run identifier of the context it was made from,
/// so the subscribers of that run receive it.
pub proof fn lemma_event_names_its_run(ctx: Seq<(Seq<char>, Json)>, agent: Seq<char>, field: Seq<char>, ts: nat)
    ensures
        transcript_event(ctx, agent, field, ts).get("run_id"@) == Some(Json::Str(run_id_of(ctx))),
        event_run(transcript_event(ctx, agent, field, ts)) == run_id_of(ctx),
{
    reveal_strlit("type");
    reveal_strlit("run_id");
    let f = transcript_event(ctx, agent, field, ts)->Object_0;
    assert(f[0].0 == "type"@);
    assert("type"@.len() == 4);
    assert("run_id"@.len() == 6);
    assert(f[0].0 != "run_id"@);
    crate::json::lemma_member_index_unique(f, "run_id"@, 1);
}

proof fn lemma_output_key_not_transcript(k: AgentKind)
    ensures
        output_key(k) != "transcript"@,
{
    reveal_strlit("transcript");
    assert("transcript"@.len() == 10);
    match k {
        AgentKind::Question => { reveal_strlit("question"); assert("question"@.len() == 8); },
        AgentKind::Answer => { reveal_strlit("answer"); assert("answer"@.len() == 6); },
        AgentKind::Goal => { reveal_strlit("goal"); assert("goal"@.len() == 4); },
        AgentKind::Reader => { reveal_strlit("claims"); assert("claims"@.len() == 6); },
        AgentKind::Critic => { reveal_strlit("critic_review"); assert("critic_review"@.len() == 13); },
        AgentKind::Planner => { reveal_strlit("plan"); assert("plan"@.len() == 4); },
        AgentKind::Statistician => {
            reveal_strlit("statistical_approval");
            assert("statistical_approval"@.len() == 20);
        },
        AgentKind::Ethics => { reveal_strlit("ethics_approval"); assert("ethics_approval"@.len() == 15); },
        AgentKind::Analyst => { reveal_strlit("analysis_result"); assert("analysis_result"@.len() == 15); },
        AgentKind::Synthesis => { reveal_strlit("pi_synthesis"); assert("pi_synthesis"@.len() == 12); },
        AgentKind::Postdoc => { reveal_strlit("report_draft"); assert("report_draft"@.len() == 12); },
        AgentKind::FinalReport => { reveal_strlit("final_report"); assert("final_report"@.len() == 12); },
    }
}

/// Recording an agent's kept output: the output reads back under the agent's key;
/// the transcript, where it is an array or missing, gains one last line naming the
/// agent, the key and the stored value; every other entry keeps its value.
pub proof fn lemma_recorded_output(k: AgentKind, ctx: Seq<(Seq<char>, Json)>, v: Json, other: Seq<char>)
    requires
        member(ctx, "transcript"@) is None || member(ctx, "transcript"@) matches Some(Json::Array(_)),
    ensures
        member(recorded(k, ctx, v), output_key(k)) == Some(stored_value(k, v)),
        member(recorded(k, ctx, v), "transcript"@) == Some(
            Json::Array(
                match member(ctx, "transcript"@) {
                    Some(Json::Array(lines)) => lines.push(
                        Json::Object(
                            seq![
                                ("agent"@, Json::Str(agent_label(k))),
                                ("field"@, Json::Str(output_key(k))),
                                ("value"@, stored_value(k, v)),
                            ],
                        ),
                    ),
                    _ => seq![
                        Json::Object(
                            seq![
                                ("agent"@, Json::Str(agent_label(k))),
                                ("field"@, Json::Str(output_key(k))),
                                ("value"@, stored_value(k, v)),
                            ],
                        ),
                    ],
                },
            ),
        ),
        other != output_key(k) && other != "transcript"@ ==> member(recorded(k, ctx, v), other) == member(
            ctx,
            other,
        ),
{
    lemma_output_key_not_transcript(k);
    let key = output_key(k);
    let mid = with_output(k, ctx, v);
    lemma_with_member(ctx, key, stored_value(k, v), "transcript"@);
    lemma_with_member(ctx, key, stored_value(k, v), other);
    let entry = transcript_entry(mid, agent_label(k), key);
    lemma_transcript_gains_line(mid, entry, key);
    lemma_transcript_gains_line(mid, entry, other);
}

/// An analysis without both approvals is blocked, and a blocked result is refused:
/// the Analyst then ends along `failure` and the context stays as it was.
pub proof fn lemma_blocked_analysis_fails(
    ctx: Seq<(Seq<char>, Json)>,
    after: Seq<(Seq<char>, Json)>,
    ts: nat,
    r: crate::agents::ProcessOutcome,
)
    requires
        !approvals_present(ctx),
    ensures
        planned_step(AgentKind::Analyst, ctx) == StepModel::Finish(blocked_model()),
        !accepts(AgentKind::Analyst, blocked_model()),
        crate::agents::post_processed(AgentKind::Analyst, ctx, after, Some(blocked_model()), ts, r) ==> after
            == ctx && r.state == MyState::Failure,
{
    let f = blocked_model()->Object_0;
    crate::json::lemma_member_index_unique(f, "blocked"@, 0);
}

proof fn lemma_encode_concat(a: Seq<char>, b: Seq<char>)
    ensures
        encode_utf8(a + b) == encode_utf8(a) + encode_utf8(b),
    decreases a.len(),
{
    if a.len() == 0 {
        assert(a + b =~= b);
        assert(encode_utf8(a) + encode_utf8(b) =~= encode_utf8(b));
    } else {
        assert((a + b).drop_first() =~= a.drop_first() + b);
        assert((a + b)[0] == a[0]);
        lemma_encode_concat(a.drop_first(), b);
        assert(encode_utf8(a + b) =~= encode_utf8(a) + encode_utf8(b));
    }
}

proof fn lemma_lower_scalar(c: char)
    ensures
        encode_scalar(ascii_lower(c) as u32).len() == encode_scalar(c as u32).len(),
        ascii_lower(c) == ',' ==> c == ',',
{
    if 'A' <= c <= 'Z' {
        assert(ascii_lower(c) as u32 == c as u32 + 32);
    }
}

proof fn lemma_lower_encoded_len(s: Seq<char>)
    ensures
        encode_utf8(ascii_lowercase(s)).len() == encode_utf8(s).len(),
    decreases s.len(),
{
    if s.len() > 0 {
        assert(ascii_lowercase(s).drop_first() =~= ascii_lowercase(s.drop_first()));
        lemma_lower_encoded_len(s.drop_first());
        lemma_lower_scalar(s[0]);
    }
}

proof fn lemma_scalar_no_comma(c: char)
    requires
        c != ',',
    ensures
        forall|k: int| 0 <= k < encode_scalar(c as u32).len() ==> #[trigger] encode_scalar(c as u32)[k] != 44,
{
    let v = c as u32;
    assert(v != 44);
    assert(v <= 0x7F && v != 44 ==> (v & 0x7F) as u8 != 44) by (bit_vector);
    assert((0xC0u8 | ((v >> 6) & 0x1F) as u8) != 44) by (bit_vector);
    assert((0xE0u8 | ((v >> 12) & 0x0F) as u8) != 44) by (bit_vector);
    assert((0xF0u8 | ((v >> 18) & 0x7) as u8) != 44) by (bit_vector);
    assert((0x80u8 | (v & 0x3F) as u8) != 44) by (bit_vector);
    assert((0x80u8 | ((v >> 6) & 0x3F) as u8) != 44) by (bit_vector);
    assert((0x80u8 | ((v >> 12) & 0x3F) as u8) != 44) by (bit_vector);
}

proof fn lemma_no_comma_bytes(s: Seq<char>)
    requires
        forall|i: int| 0 <= i < s.len() ==> s[i] != ',',
    ensures
        forall|p: int| 0 <= p < encode_utf8(s).len() ==> encode_utf8(s)[p] != 44,
    decreases s.len(),
{
    if s.len() > 0 {
        lemma_no_comma_bytes(s.drop_first());
        lemma_scalar_no_comma(s[0]);
        let h = encode_scalar(s[0] as u32);
        let rest = encode_utf8(s.drop_first());
        assert(encode_utf8(s) == h + rest);
        assert forall|p: int| 0 <= p < encode_utf8(s).len() implies encode_utf8(s)[p] != 44 by {
            if p >= h.len() {
                assert(encode_utf8(s)[p] == rest[p - h.len()]);
            }
        }
    }
}

proof fn lemma_find_bytes_skip(hay: Seq<u8>, pat: Seq<u8>, i: int, j: int)
    requires
        0 <= i <= j,
        j + pat.len() <= hay.len(),
        forall|p: int| i <= p < j ==> !bytes_at(hay, pat, p),
    ensures
        find_bytes_from(hay, pat, i) == find_bytes_from(hay, pat, j),
    decreases j - i,
{
    if i < j {
        lemma_find_bytes_skip(hay, pat, i + 1, j);
    }
}

proof fn lemma_trim_padded(s: Seq<char>)
    requires
        s.len() > 0,
        !is_white_space(s[0]),
        !is_white_space(s.last()),
    ensures
        trim(seq![' '] + s) == s,
{
    let p = seq![' '] + s;
    assert(p.drop_first() =~= s);
    assert(trim_start(p) == trim_start(s));
}

/// The text of a request from one agent to another: "role: <role>, msg: <msg>".
pub open spec fn request_text(role: Seq<char>, msg: Seq<char>) -> Seq<char> {
    seq!['r', 'o', 'l', 'e', ':', ' '] + role + seq![',', ' ', 'm', 's', 'g', ':', ' '] + msg
}

/// A request written as "role: <role>, msg: <msg>" can be cut and reads back as
/// that role and message, where both are non-empty, neither starts or ends with
/// white space, the role holds no comma, and lower-casing the request changes no
/// character but ASCII capitals.
pub proof fn lemma_request_round_trip(role: Seq<char>, msg: Seq<char>)
    requires
        role.len() > 0,
        msg.len() > 0,
        !is_white_space(role[0]),
        !is_white_space(role.last()),
        !is_white_space(msg[0]),
        !is_white_space(msg.last()),
        forall|i: int| 0 <= i < role.len() ==> role[i] != ',',
    ensures
        lowercase(request_text(role, msg)) == ascii_lowercase(request_text(role, msg)) ==> {
            &&& request_sliceable(request_text(role, msg))
            &&& inter_agent_request(request_text(role, msg)) == Some((role, msg))
        },
{
    let t = request_text(role, msg);
    if lowercase(t) == ascii_lowercase(t) {
        let p = seq!['r', 'o', 'l', 'e', ':', ' '];
        let q = seq![',', ' ', 'm', 's', 'g', ':', ' '];
        let sp = seq![' '];
        let bp = seq![114u8, 111u8, 108u8, 101u8, 58u8, 32u8];
        let bq = seq![44u8, 32u8, 109u8, 115u8, 103u8, 58u8, 32u8];
        is_ascii_chars_encode_utf8(p);
        is_ascii_chars_encode_utf8(q);
        is_ascii_chars_encode_utf8(sp);
        assert(encode_utf8(p) =~= bp);
        assert(encode_utf8(q) =~= bq);
        assert(encode_utf8(sp) =~= seq![32u8]);
        let lr = ascii_lowercase(role);
        let lm = ascii_lowercase(msg);
        assert(ascii_lowercase(t) =~= p + lr + q + lm);
        lemma_encode_concat(p, role);
        lemma_encode_concat(p + role, q);
        lemma_encode_concat(p + role + q, msg);
        lemma_encode_concat(p, lr);
        lemma_encode_concat(p + lr, q);
        lemma_encode_concat(p + lr + q, lm);
        let er = encode_utf8(role);
        let elr = encode_utf8(lr);
        let b = encode_utf8(t);
        let low = encode_utf8(lowercase(t));
        assert(b =~= bp + er + bq + encode_utf8(msg));
        assert(low =~= bp + elr + bq + encode_utf8(lm));
        lemma_lower_encoded_len(role);
        let m: int = 6 + er.len() as int;
        assert(bytes_at(low, role_marker(), 0));
        assert forall|i: int| 0 <= i < lr.len() implies lr[i] != ',' by {
            lemma_lower_scalar(role[i]);
        }
        lemma_no_comma_bytes(lr);
        assert forall|j: int| 0 <= j < m implies !bytes_at(low, msg_marker(), j) by {
            if bytes_at(low, msg_marker(), j) {
                assert(low[j + 0] == msg_marker()[0]);
                if j < 6 {
                    assert(low[j] == bp[j]);
                } else {
                    assert(low[j] == elr[j - 6]);
                }
            }
        }
        assert(bytes_at(low, msg_marker(), m));
        lemma_find_bytes_skip(low, msg_marker(), 0, m);
        encode_utf8_valid_utf8(t);
        assert(b[5] == 32u8);
        assert(b[m] == 44u8);
        assert(b[m + 6] == 32u8);
        is_char_boundary_iff_not_is_continuation_byte(b, 5);
        is_char_boundary_iff_not_is_continuation_byte(b, m);
        is_char_boundary_iff_not_is_continuation_byte(b, m + 6);
        lemma_encode_concat(sp, role);
        lemma_encode_concat(sp, msg);
        assert(b.subrange(5, m) =~= encode_utf8(sp + role));
        assert(b.subrange(m + 6, b.len() as int) =~= encode_utf8(sp + msg));
        encode_utf8_decode_utf8(sp + role);
        encode_utf8_decode_utf8(sp + msg);
        lemma_trim_padded(role);
        lemma_trim_padded(msg);
    }
}

/// A Reader or Critic whose reply is a request to another role asks that role
/// once more, with the request's message and the same shared state the answered
/// request carried; a reply that is no request ends its step with the reply.
pub proof fn lemma_forwarded_request_keeps_shared_state(
    k: AgentKind,
    request: (Seq<char>, Seq<char>, Json),
    reply: Seq<char>,
)
    requires
        k == AgentKind::Reader || k == AgentKind::Critic,
    ensures
        inter_agent_request(reply) matches Some((role, msg)) ==> next_step(k, request, Json::Str(reply))
            == StepModel::AskFinal(role, msg, request.2),
        inter_agent_request(reply) is None ==> next_step(k, request, Json::Str(reply))
            == StepModel::Finish(Json::Str(reply)),
{
}

/// The shared state shown to the language model holds each of goal, claims,
/// critic_review, plan, statistical_approval, ethics_approval, analysis_result,
/// pi_synthesis and report_draft exactly as the context holds it, and nothing else.
pub proof fn lemma_snapshot_named_entries(ctx: Seq<(Seq<char>, Json)>, k: Seq<char>)
    ensures
        snapshot_model(ctx).get(k) == if k == "goal"@ || k == "claims"@ || k == "critic_review"@
            || k == "plan"@ || k == "statistical_approval"@ || k == "ethics_approval"@ || k
            == "analysis_result"@ || k == "pi_synthesis"@ || k == "report_draft"@ {
            member(ctx, k)
        } else {
            None
        },
{
    let named = seq![
        "goal"@,
        "claims"@,
        "critic_review"@,
        "plan"@,
        "statistical_approval"@,
        "ethics_approval"@,
        "analysis_result"@,
        "pi_synthesis"@,
        "report_draft"@,
    ];
    assert(snapshot_keys() =~= named);
    let listed = k == "goal"@ || k == "claims"@ || k == "critic_review"@ || k == "plan"@ || k
        == "statistical_approval"@ || k == "ethics_approval"@ || k == "analysis_result"@ || k
        == "pi_synthesis"@ || k == "report_draft"@;
    if listed {
        if k == "goal"@ {
            assert(named[0] == k);
        } else if k == "claims"@ {
            assert(named[1] == k);
        } else if k == "critic_review"@ {
            assert(named[2] == k);
        } else if k == "plan"@ {
            assert(named[3] == k);
        } else if k == "statistical_approval"@ {
            assert(named[4] == k);
        } else if k == "ethics_approval"@ {
            assert(named[5] == k);
        } else if k == "analysis_result"@ {
            assert(named[6] == k);
        } else if k == "pi_synthesis"@ {
            assert(named[7] == k);
        } else {
            assert(named[8] == k);
        }
        assert(named.contains(k));
    } else {
        assert(!named.contains(k)) by {
            if named.contains(k) {
                let j = choose|j: int| 0 <= j < named.len() && named[j] == k;
                assert(0 <= j < 9);
            }
        }
    }
    lemma_snapshot_model(ctx, k);
}

/// Each agent's transcript lines carry its own name: the agents that play a role
/// for the language model are named after that role; the others are "User"
/// (the question), "Answer" and "PI" (the final report).
pub proof fn lemma_agent_labels()
    ensures
        forall|k: AgentKind|
            k != AgentKind::Question && k != AgentKind::Answer && k != AgentKind::FinalReport
                ==> #[trigger] agent_label(k) == llm_role(k),
        agent_label(AgentKind::Question) == "User"@,
        agent_label(AgentKind::Answer) == "Answer"@,
        agent_label(AgentKind::Goal) == "PI"@,
        agent_label(AgentKind::Reader) == "Reader"@,
        agent_label(AgentKind::Critic) == "Critic"@,
        agent_label(AgentKind::Planner) == "Planner"@,
        agent_label(AgentKind::Statistician) == "Statistician"@,
        agent_label(AgentKind::Ethics) == "Ethics"@,
        agent_label(AgentKind::Analyst) == "Analyst"@,
        agent_label(AgentKind::Synthesis) == "PI"@,
        agent_label(AgentKind::Postdoc) == "Postdoc"@,
        agent_label(AgentKind::FinalReport) == "PI"@,
{
}

/// Where each agent stores its output in the context, and which role each agent
/// asks the language model to play.
pub proof fn lemma_output_keys_and_roles()
    ensures
        output_key(AgentKind::Question) == "question"@,
        output_key(AgentKind::Answer) == "answer"@,
        output_key(AgentKind::Goal) == "goal"@,
        output_key(AgentKind::Reader) == "claims"@,
        output_key(AgentKind::Critic) == "critic_review"@,
        output_key(AgentKind::Planner) == "plan"@,
        output_key(AgentKind::Statistician) == "statistical_approval"@,
        output_key(AgentKind::Ethics) == "ethics_approval"@,
        output_key(AgentKind::Analyst) == "analysis_result"@,
        output_key(AgentKind::Synthesis) == "pi_synthesis"@,
        output_key(AgentKind::Postdoc) == "report_draft"@,
        output_key(AgentKind::FinalReport) == "final_report"@,
        llm_role(AgentKind::Answer) == "general"@,
        llm_role(AgentKind::Goal) == "PI"@,
        llm_role(AgentKind::Reader) == "Reader"@,
        llm_role(AgentKind::Critic) == "Critic"@,
        llm_role(AgentKind::Planner) == "Planner"@,
        llm_role(AgentKind::Statistician) == "Statistician"@,
        llm_role(AgentKind::Ethics) == "Ethics"@,
        llm_role(AgentKind::Analyst) == "Analyst"@,
        llm_role(AgentKind::Synthesis) == "PI"@,
        llm_role(AgentKind::Postdoc) == "Postdoc"@,
{
}

/// A recorded file keeps what it was given: the title, the path under `data/`,
/// the time; it is of kind "file", has no URL, and is named "file_<time>".
/// A recorded URL likewise keeps its title, URL and time, and has no path.
pub proof fn lemma_added_sources(rel: Seq<char>, url: Seq<char>, title: Option<Seq<char>>, ts: nat)
    ensures
        file_source(rel, title, ts).title == title,
        file_source(rel, title, ts).path == Some(rel),
        file_source(rel, title, ts).url is None,
        file_source(rel, title, ts).kind == "file"@,
        file_source(rel, title, ts).added_at == ts,
        file_source(rel, title, ts).id == "file"@ + "_"@ + decimal(ts),
        url_source(url, title, ts).title == title,
        url_source(url, title, ts).url == Some(url),
        url_source(url, title, ts).path is None,
        url_source(url, title, ts).kind == "url"@,
        url_source(url, title, ts).added_at == ts,
        url_source(url, title, ts).id == "url"@ + "_"@ + decimal(ts),
{
}

/// Sanitising a file name keeps its length, keeps every ASCII letter (of either
/// case), digit, '.', '-' and '_', and puts '_' in place of every other character.
pub proof fn lemma_sanitized_characters(name: Seq<char>)
    ensures
        sanitized_name(name).len() == name.len(),
        forall|i: int| 0 <= i < name.len() ==> {
            let c = #[trigger] name[i];
            if ('0' <= c <= '9') || ('A' <= c <= 'Z') || ('a' <= c <= 'z') || c == '.' || c == '-'
                || c == '_' {
                sanitized_name(name)[i] == c
            } else {
                sanitized_name(name)[i] == '_'
            }
        },
{
    assert forall|i: int| 0 <= i < name.len() implies {
        let c = #[trigger] name[i];
        if ('0' <= c <= '9') || ('A' <= c <= 'Z') || ('a' <= c <= 'z') || c == '.' || c == '-'
            || c == '_' {
            sanitized_name(name)[i] == c
        } else {
            sanitized_name(name)[i] == '_'
        }
    } by {
        let c = name[i];
        assert('0' as int == 48 && '9' as int == 57 && 'A' as int == 65 && 'Z' as int == 90);
        assert('a' as int == 97 && 'z' as int == 122);
    }
}

/// A run starts with its identifier under `run_id` and, where one is given, its
/// goal under `goal`; nothing else.
pub proof fn lemma_seeded_context(goal: Option<Seq<char>>, run_id: Seq<char>, other: Seq<char>)
    ensures
        member(seeded_context(goal, run_id), "run_id"@) == Some(Json::Str(run_id)),
        run_id_of(seeded_context(goal, run_id)) == run_id,
        member(seeded_context(goal, run_id), "goal"@) == match goal {
            Some(t) => Some(goal_model(t)),
            None => None,
        },
        other != "goal"@ && other != "run_id"@ ==> member(seeded_context(goal, run_id), other) is None,
{
    reveal_strlit("goal");
    reveal_strlit("run_id");
    assert("goal"@.len() == 4);
    assert("run_id"@.len() == 6);
    let empty = Seq::<(Seq<char>, Json)>::empty();
    lemma_member_index(empty, other);
    lemma_member_index(empty, "goal"@);
    let with_goal = match goal {
        Some(t) => with_member(empty, "goal"@, goal_model(t)),
        None => empty,
    };
    match goal {
        Some(t) => {
            lemma_with_member(empty, "goal"@, goal_model(t), other);
        },
        None => {},
    }
    lemma_with_member(with_goal, "run_id"@, Json::Str(run_id), "goal"@);
    lemma_with_member(with_goal, "run_id"@, Json::Str(run_id), other);
}

} // verus!
