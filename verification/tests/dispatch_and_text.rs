use research_lab::dispatch::{
    detect_inter_agent_request, read_inter_agent_request, request_sliceable_exec,
};
use research_lab::text::{decimal_string, trim_str};

fn pair(a: &str, b: &str) -> Option<(String, String)> {
    Some((a.to_string(), b.to_string()))
}

#[test]
fn detects_a_plain_request() {
    assert_eq!(
        detect_inter_agent_request("role: Critic, msg: please verify claim 2"),
        pair("Critic", "please verify claim 2")
    );
}

#[test]
fn request_markers_ignore_case_and_parts_are_trimmed() {
    assert_eq!(
        detect_inter_agent_request("Note. ROLE:   Planner , MSG:  redo the power analysis \n"),
        pair("Planner", "redo the power analysis")
    );
}

#[test]
fn request_needs_both_markers() {
    assert_eq!(detect_inter_agent_request("role: Critic says hello"), None);
    assert_eq!(detect_inter_agent_request("just text, msg: hi"), None);
    assert_eq!(detect_inter_agent_request(""), None);
}

#[test]
fn request_needs_non_empty_parts() {
    assert_eq!(detect_inter_agent_request("role: , msg: hi"), None);
    assert_eq!(detect_inter_agent_request("role: Critic, msg:   "), None);
}

#[test]
fn request_round_trip_law_on_values() {
    let role = "Statistician";
    let msg = "check the sample size";
    let text = format!("role: {}, msg: {}", role, msg);
    assert!(request_sliceable_exec(&text));
    assert_eq!(detect_inter_agent_request(&text), pair(role, msg));
}

#[test]
fn request_round_trip_law_on_accented_values() {
    let role = "Éthique";
    let msg = "vérifier le consentement";
    let text = format!("role: {}, msg: {}", role, msg);
    assert!(request_sliceable_exec(&text));
    assert_eq!(detect_inter_agent_request(&text), pair(role, msg));
}

#[test]
fn message_marker_before_role_marker_cannot_be_cut() {
    assert!(!request_sliceable_exec("x, msg: hi role: Critic"));
    assert!(request_sliceable_exec("no markers at all"));
    assert!(request_sliceable_exec("role: a, msg: b"));
}

#[test]
fn request_keeps_characters_whose_lower_case_has_the_same_length() {
    assert_eq!(
        detect_inter_agent_request("héllo role: Éthique, msg: vérifier"),
        pair("Éthique", "vérifier")
    );
}

#[test]
fn request_is_cut_at_the_byte_offsets_of_the_lower_cased_text() {
    // 'İ' takes two bytes and lower-cases to three, so every offset found in
    // the lower-cased text lies one byte further on in the original.
    assert!(request_sliceable_exec("İ role: X, msg: Y"));
    assert_eq!(detect_inter_agent_request("İ role: X, msg: Y"), pair("X,", "Y"));
}

#[test]
fn request_that_would_be_cut_inside_a_character_is_refused() {
    assert!(!request_sliceable_exec("İ role: x, msg:éé"));
    assert_eq!(read_inter_agent_request("İ role: x, msg:éé"), None);
    assert_eq!(read_inter_agent_request("x, msg: hi role: Critic"), None);
}

#[test]
fn request_reading_with_its_check() {
    assert_eq!(
        read_inter_agent_request("role: Critic, msg: please verify claim 2"),
        Some(pair("Critic", "please verify claim 2"))
    );
    assert_eq!(read_inter_agent_request("no request here"), Some(None));
}

#[test]
fn trim_removes_unicode_white_space() {
    assert_eq!(trim_str("  hi there \t\n"), "hi there");
    assert_eq!(trim_str("\u{3000}x\u{00A0}"), "x");
    assert_eq!(trim_str("   "), "");
    assert_eq!(trim_str("a"), "a");
}

#[test]
fn decimal_numerals() {
    assert_eq!(decimal_string(0), "0");
    assert_eq!(decimal_string(7), "7");
    assert_eq!(decimal_string(1725029869), "1725029869");
    assert_eq!(decimal_string(u128::MAX), u128::MAX.to_string());
}
