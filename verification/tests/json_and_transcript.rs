use research_lab::claims::normalize_claims;
use research_lab::context::LabContext;
use research_lab::json::{set_member, JsonValue};
use research_lab::transcript::append_transcript;

fn s(x: &str) -> JsonValue {
    JsonValue::Str(x.to_string())
}

fn obj(fields: Vec<(&str, JsonValue)>) -> JsonValue {
    JsonValue::Object(fields.into_iter().map(|(k, v)| (k.to_string(), v)).collect())
}

#[test]
fn object_lookup_finds_members() {
    let v = obj(vec![("a", s("x")), ("b", JsonValue::Bool(true))]);
    assert_eq!(v.get("b"), Some(&JsonValue::Bool(true)));
    assert_eq!(v.get("c"), None);
    assert_eq!(s("a").get("a"), None);
    assert_eq!(v.get("a").and_then(|x| x.as_str()).map(|x| x.as_str()), Some("x"));
}

#[test]
fn set_member_replaces_or_appends() {
    let mut f = vec![("a".to_string(), s("1"))];
    set_member(&mut f, "a", s("2"));
    set_member(&mut f, "b", s("3"));
    assert_eq!(f, vec![("a".to_string(), s("2")), ("b".to_string(), s("3"))]);
}

#[test]
fn deep_copy_is_equal() {
    let v = obj(vec![("a", JsonValue::Array(vec![s("x"), JsonValue::Null, JsonValue::Number("1.5".to_string())]))]);
    assert_eq!(v.deep_copy(), v);
}

#[test]
fn context_get_and_set() {
    let mut ctx = LabContext::new();
    assert!(ctx.get("goal").is_none());
    ctx.set("goal", s("g"));
    ctx.set("plan", s("p"));
    ctx.set("goal", s("g2"));
    assert_eq!(ctx.get("goal"), Some(&s("g2")));
    assert_eq!(ctx.entries().len(), 2);
}

#[test]
fn transcript_starts_and_grows() {
    let mut ctx = LabContext::new();
    ctx.set("run_id", s("r1"));
    ctx.set("goal", s("study sleep"));
    let u = append_transcript(&mut ctx, "PI", "goal", 42);
    let e1 = obj(vec![("agent", s("PI")), ("field", s("goal")), ("value", s("study sleep"))]);
    assert_eq!(u.entry, e1);
    assert_eq!(ctx.get("transcript"), Some(&JsonValue::Array(vec![e1.deep_copy()])));
    assert_eq!(
        u.event,
        obj(vec![
            ("type", s("transcript")),
            ("run_id", s("r1")),
            ("agent", s("PI")),
            ("field", s("goal")),
            ("value", s("study sleep")),
            ("ts_ms", JsonValue::Number("42".to_string())),
        ])
    );
    let u2 = append_transcript(&mut ctx, "Reader", "claims", 43);
    let e2 = obj(vec![("agent", s("Reader")), ("field", s("claims")), ("value", JsonValue::Null)]);
    assert_eq!(u2.entry, e2);
    assert_eq!(ctx.get("transcript"), Some(&JsonValue::Array(vec![e1, e2])));
    assert_eq!(u2.event.get("run_id"), Some(&s("r1")));
}

#[test]
fn transcript_that_is_not_an_array_is_left_alone() {
    let mut ctx = LabContext::new();
    ctx.set("transcript", s("oops"));
    let u = append_transcript(&mut ctx, "PI", "goal", 1);
    assert_eq!(ctx.get("transcript"), Some(&s("oops")));
    assert_eq!(u.event.get("run_id"), Some(&s("")));
}

#[test]
fn claims_evidence_is_completed() {
    let v = obj(vec![
        ("claims", JsonValue::Array(vec![
            obj(vec![("id", s("c1"))]),
            obj(vec![("id", s("c2")), ("evidence", obj(vec![("url", s("http://x"))]))]),
            obj(vec![("id", s("c3")), ("evidence", s("none"))]),
            s("not a claim"),
        ])),
        ("other", JsonValue::Bool(false)),
    ]);
    let blank = obj(vec![("url", s("")), ("snippet", s(""))]);
    let expected = obj(vec![
        ("claims", JsonValue::Array(vec![
            obj(vec![("id", s("c1")), ("evidence", blank.deep_copy())]),
            obj(vec![("id", s("c2")), ("evidence", obj(vec![("url", s("http://x")), ("snippet", s(""))]))]),
            obj(vec![("id", s("c3")), ("evidence", blank.deep_copy())]),
            s("not a claim"),
        ])),
        ("other", JsonValue::Bool(false)),
    ]);
    let n = normalize_claims(&v);
    assert_eq!(n, expected);
    assert_eq!(normalize_claims(&n), n);
}

#[test]
fn output_without_claims_array_is_kept() {
    let v = obj(vec![("claims", s("none"))]);
    assert_eq!(normalize_claims(&v), v);
    assert_eq!(normalize_claims(&s("x")), s("x"));
}
