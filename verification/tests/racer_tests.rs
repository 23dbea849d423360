use irust::error::IRustError;
use irust::racer::{contains_end_marker, parse_suggestions, request_line, Racer};

fn session_with(items: &[&str], idx: usize) -> Racer {
    let mut r = Racer::new(String::from("/tmp/main.rs"));
    r.suggestions = items.iter().map(|s| String::from(*s)).collect();
    r.suggestion_idx = idx;
    r
}

#[test]
fn next_suggestion_on_empty_set_is_none() {
    let mut r = session_with(&[], 0);
    assert_eq!(r.next_suggestion(), None);
    // whatever the index says, an empty set yields nothing
    let mut r = session_with(&[], 17);
    assert_eq!(r.next_suggestion(), None);
    assert_eq!(r.suggestion_idx, 0);
}

#[test]
fn next_suggestion_cycles_in_order() {
    let mut r = session_with(&["a", "b", "c"], 0);
    let mut seen = Vec::new();
    for _ in 0..7 {
        seen.push(r.next_suggestion().unwrap());
    }
    assert_eq!(seen, vec!["a", "b", "c", "a", "b", "c", "a"]);
}

#[test]
fn next_suggestion_wraps_a_stale_index() {
    let mut r = session_with(&["x", "y"], 9);
    assert_eq!(r.next_suggestion().as_deref(), Some("x"));
    assert_eq!(r.suggestion_idx, 1);
}

#[test]
fn current_suggestion_repeats_last_handed_out() {
    let r = session_with(&["a", "b"], 0);
    assert_eq!(r.current_suggestion().as_deref(), Some("a"));
    let mut r = session_with(&["a", "b"], 0);
    r.next_suggestion();
    assert_eq!(r.current_suggestion().as_deref(), Some("a"));
    r.next_suggestion();
    assert_eq!(r.current_suggestion().as_deref(), Some("b"));
    let r = session_with(&[], 0);
    assert_eq!(r.current_suggestion(), None);
}

#[test]
fn three_records_parse_in_order() {
    let text = "MATCH alpha,fn;MATCH beta,mod;MATCH gamma,use;END\n";
    let out = parse_suggestions(text);
    assert_eq!(out, vec!["alpha", "beta", "gamma"]);
}

#[test]
fn unterminated_tag_yields_no_record() {
    let out = parse_suggestions("MATCH alpha,MATCH beta");
    assert_eq!(out, vec!["alpha"]);
}

#[test]
fn handle_response_replaces_suggestions_and_clears_flag() {
    let mut r = session_with(&["old"], 1);
    let bytes = b"MATCH alpha,x;MATCH beta,y;MATCH gamma,z;END\n".to_vec();
    assert!(r.handle_response(bytes).is_ok());
    assert_eq!(r.suggestions, vec!["alpha", "beta", "gamma"]);
    assert!(!r.needs_update);
}

#[test]
fn handle_response_rejects_invalid_text() {
    let mut r = session_with(&["old"], 0);
    r.needs_update = true;
    let res = r.handle_response(vec![0xff, 0xfe, 0x00]);
    assert_eq!(res, Err(IRustError::ResponseDecodeFailed));
    // the prior suggestions are kept for a later cycle
    assert_eq!(r.suggestions, vec!["old"]);
    assert!(r.needs_update);
}

#[test]
fn end_marker_found_wherever_it_sits() {
    assert!(contains_end_marker(b"MATCH a,END\n"));
    assert!(contains_end_marker(b"xxENDyy"));
    assert!(contains_end_marker(b"ENDD"));
    assert!(contains_end_marker(b"END"));
}

#[test]
fn end_marker_absent_on_partial_reads() {
    assert!(!contains_end_marker(b"MATCH a,"));
    assert!(!contains_end_marker(b"EN"));
    assert!(!contains_end_marker(b""));
    assert!(!contains_end_marker(b"ENxD"));
}

#[test]
fn request_line_formats_coordinates_in_decimal() {
    assert_eq!(request_line(12, 305, "f.rs"), "complete 12 305 f.rs\n");
    assert_eq!(request_line(0, 1, "/tmp/main.rs"), "complete 0 1 /tmp/main.rs\n");
}

#[test]
fn session_request_line_uses_its_own_cursor() {
    let mut r = Racer::new(String::from("/tmp/main.rs"));
    assert_eq!(r.cursor, (2, 5));
    assert!(r.needs_update);
    r.cursor = (9, 42);
    assert_eq!(r.request_line(), "complete 9 42 /tmp/main.rs\n");
}

#[test]
fn error_descriptions_name_the_failure() {
    assert_eq!(
        IRustError::SubprocessSpawnFailed.description(),
        "could not start the completion daemon"
    );
    assert_eq!(
        IRustError::ResponseDecodeFailed.description(),
        "the completion daemon sent malformed text"
    );
    assert_eq!(
        IRustError::SubprocessIoFailed.description(),
        "the completion daemon stopped responding"
    );
    assert_eq!(
        IRustError::TerminalIoFailed.description(),
        "a terminal write failed"
    );
}
