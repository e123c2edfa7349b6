use research_lab::cli::{ChatCmd, Cli, Commands, Launch, RunCmd, ServeCmd};
use research_lab::json::JsonValue;
use research_lab::run::{event_matches_run, initial_context, labelled_outputs, run_outputs, transcript_lines};
use research_lab::sources::{
    add_source_file_path, add_source_url, files_dir, remove_source, sanitize_file_name,
    sources_path, uploaded_file_path,
};

fn s(x: &str) -> JsonValue {
    JsonValue::Str(x.to_string())
}

fn obj(fields: Vec<(&str, JsonValue)>) -> JsonValue {
    JsonValue::Object(fields.into_iter().map(|(k, v)| (k.to_string(), v)).collect())
}

#[test]
fn sources_are_added_at_the_end() {
    let mut list = Vec::new();
    let a = add_source_url(&mut list, "https://example.org", Some("Example".to_string()), 100);
    assert_eq!(a.id, "url_100");
    assert_eq!(a.kind, "url");
    assert_eq!(a.url, Some("https://example.org".to_string()));
    assert_eq!(a.path, None);
    assert_eq!(a.title, Some("Example".to_string()));
    let b = add_source_file_path(&mut list, "data/sources/files/x.pdf", None, 101);
    assert_eq!(b.id, "file_101");
    assert_eq!(b.kind, "file");
    assert_eq!(b.path, Some("data/sources/files/x.pdf".to_string()));
    assert_eq!(b.added_at, 101);
    assert_eq!(list.len(), 2);
    assert_eq!(list[1], b);
}

#[test]
fn removing_an_added_source() {
    let mut list = Vec::new();
    add_source_url(&mut list, "u1", None, 1);
    let b = add_source_url(&mut list, "u2", None, 2);
    add_source_url(&mut list, "u3", None, 3);
    assert!(remove_source(&mut list, &b.id));
    assert_eq!(list.len(), 2);
    assert!(list.iter().all(|s| s.id != b.id));
    assert_eq!(list[0].id, "url_1");
    assert_eq!(list[1].id, "url_3");
    assert!(!remove_source(&mut list, "url_99"));
    assert_eq!(list.len(), 2);
}

#[test]
fn removing_removes_every_source_with_the_id() {
    let mut list = Vec::new();
    add_source_url(&mut list, "u1", None, 5);
    add_source_file_path(&mut list, "p", None, 5);
    add_source_url(&mut list, "u2", None, 5);
    assert!(remove_source(&mut list, "url_5"));
    assert_eq!(list.len(), 1);
    assert_eq!(list[0].id, "file_5");
}

#[test]
fn file_names_are_sanitized() {
    assert_eq!(sanitize_file_name("my file (1).pdf"), "my_file__1_.pdf");
    assert_eq!(sanitize_file_name("ok-name_2.txt"), "ok-name_2.txt");
    assert_eq!(sanitize_file_name("données.csv"), "donn_es.csv");
    let once = sanitize_file_name("a b/c");
    assert_eq!(sanitize_file_name(&once), once);
    assert_eq!(uploaded_file_path(77, "x.pdf"), "data/sources/files/77_x.pdf");
    assert_eq!(sources_path(), "data/sources/sources.json");
    assert_eq!(files_dir(), "data/sources/files");
}

#[test]
fn command_line_launches() {
    let serve = Cli { command: Some(Commands::Serve(ServeCmd { port: 9000 })) };
    assert_eq!(serve.launch(), Launch::Serve { port: 9000 });
    let run = Cli { command: Some(Commands::Run(RunCmd { goal: Some("sleep".to_string()) })) };
    assert_eq!(run.launch(), Launch::Flow { goal: Some("sleep".to_string()), ask_for_goal: false });
    let chat = Cli { command: Some(Commands::Chat(ChatCmd { message: None })) };
    assert_eq!(chat.launch(), Launch::Flow { goal: None, ask_for_goal: true });
    let chat2 = Cli { command: Some(Commands::Chat(ChatCmd { message: Some("hi".to_string()) })) };
    assert_eq!(chat2.launch(), Launch::Flow { goal: Some("hi".to_string()), ask_for_goal: false });
    assert_eq!(Cli { command: None }.launch(), Launch::Flow { goal: None, ask_for_goal: false });
    assert_eq!(Cli { command: Some(Commands::Init) }.launch(), Launch::Flow { goal: None, ask_for_goal: false });
}

#[test]
fn runs_start_with_goal_and_run_id() {
    let ctx = initial_context(Some("sleep".to_string()), "r-1");
    assert_eq!(ctx.get("goal"), Some(&obj(vec![("title", s("sleep"))])));
    assert_eq!(ctx.get("run_id"), Some(&s("r-1")));
    let ctx2 = initial_context(None, "r-2");
    assert!(ctx2.get("goal").is_none());
    assert_eq!(ctx2.entries().len(), 1);
}

#[test]
fn events_are_matched_to_their_run() {
    let ev = obj(vec![("type", s("transcript")), ("run_id", s("abc"))]);
    assert!(event_matches_run(&ev, "abc"));
    assert!(!event_matches_run(&ev, "abd"));
    assert!(event_matches_run(&obj(vec![]), ""));
    assert!(!event_matches_run(&JsonValue::Null, "abc"));
}

#[test]
fn run_outputs_default_when_missing() {
    let (t, r) = run_outputs(&JsonValue::Null);
    assert_eq!(t, JsonValue::Array(vec![]));
    assert_eq!(r, obj(vec![]));
    let res = obj(vec![("transcript", JsonValue::Array(vec![s("x")])), ("final_report", s("f"))]);
    let (t2, r2) = run_outputs(&res);
    assert_eq!(t2, JsonValue::Array(vec![s("x")]));
    assert_eq!(r2, s("f"));
}

#[test]
fn printed_outputs_and_transcript() {
    let res = obj(vec![
        ("plan", s("p")),
        ("goal", s("g")),
        ("transcript", JsonValue::Array(vec![
            obj(vec![("agent", s("PI")), ("field", s("goal")), ("value", s("g"))]),
            obj(vec![("value", JsonValue::Bool(true))]),
        ])),
    ]);
    assert_eq!(
        labelled_outputs(&res),
        vec![("[PI] Goal".to_string(), s("g")), ("[Planner] Plan".to_string(), s("p"))]
    );
    assert_eq!(
        transcript_lines(&res),
        vec![
            ("PI".to_string(), "goal".to_string(), s("g")),
            ("?".to_string(), "".to_string(), JsonValue::Bool(true)),
        ]
    );
    assert!(transcript_lines(&JsonValue::Null).is_empty());
}
