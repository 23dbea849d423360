use irust::args::{parse_args, ArgCommand};
use irust::cursor::Cursor;
use irust::racer::Racer;
use irust::term::{ClearType, Color, TermCommand};
use irust::utils::{str_eq, usize_to_string, StringTools};
use irust::{Buffer, IRust, Options};

fn mk(text: &str, pos: usize, racer: Option<Racer>) -> IRust {
    IRust {
        cursor: Cursor::new(10),
        buffer: Buffer {
            text: String::from(text),
            pos,
        },
        repl_lines: 7,
        racer,
        options: Options {
            enable_racer: true,
            racer_color: Color::Cyan,
        },
    }
}

fn fresh_session() -> Racer {
    Racer::new(String::from("/tmp/main.rs"))
}

#[test]
fn request_sent_only_from_end_of_buffer() {
    // editing mid-line: no request, no state change
    let mut ir = mk("pri", 1, Some(fresh_session()));
    assert_eq!(ir.completion_request(), None);
    assert_eq!(ir.racer.as_ref().unwrap().cursor, (2, 5));
    // at the end: a request with (transcript lines, input length + 1)
    let mut ir = mk("pri", 3, Some(fresh_session()));
    let line = ir.completion_request();
    assert_eq!(line.as_deref(), Some("complete 7 4 /tmp/main.rs\n"));
    assert_eq!(ir.racer.as_ref().unwrap().cursor, (7, 4));
}

#[test]
fn fresh_suggestions_ask_for_no_request() {
    let mut racer = fresh_session();
    racer.needs_update = false;
    let mut ir = mk("pri", 3, Some(racer));
    assert_eq!(ir.completion_request(), None);
}

#[test]
fn absent_session_makes_completion_silent() {
    let mut ir = mk("pri", 3, None);
    assert_eq!(ir.completion_request(), None);
    assert_eq!(ir.render_next_suggestion(), Vec::new());
    ir.racer_needs_update(true);
    assert!(ir.racer.is_none());
}

#[test]
fn render_strips_the_already_typed_prefix() {
    let mut racer = fresh_session();
    racer.suggestions = vec![String::from("println!")];
    let mut ir = mk("pri", 3, Some(racer));
    let before = ir.cursor.pos.current_pos;
    let cmds = ir.render_next_suggestion();
    assert_eq!(
        cmds,
        vec![
            TermCommand::SetFg(Color::Cyan),
            TermCommand::SavePosition,
            TermCommand::Clear(ClearType::UntilNewLine),
            TermCommand::WriteChar('n'),
            TermCommand::WriteChar('t'),
            TermCommand::WriteChar('l'),
            TermCommand::WriteChar('n'),
            TermCommand::WriteChar('!'),
            TermCommand::RestorePosition,
            TermCommand::ResetColor,
        ]
    );
    // the cursor model is exactly where it was
    assert_eq!(ir.cursor.pos.current_pos, before);
    assert_eq!(ir.racer.as_ref().unwrap().suggestion_idx, 1);
}

#[test]
fn render_away_from_line_end_emits_nothing() {
    let mut racer = fresh_session();
    racer.suggestions = vec![String::from("println!")];
    let mut ir = mk("pri", 2, Some(racer));
    assert_eq!(ir.render_next_suggestion(), Vec::new());
    assert_eq!(ir.racer.as_ref().unwrap().suggestion_idx, 0);
}

#[test]
fn render_with_no_suggestions_emits_nothing() {
    let mut ir = mk("pri", 3, Some(fresh_session()));
    assert_eq!(ir.render_next_suggestion(), Vec::new());
}

#[test]
fn invalidation_flags_the_session() {
    let mut racer = fresh_session();
    racer.needs_update = false;
    let mut ir = mk("pri", 3, Some(racer));
    ir.racer_needs_update(true);
    assert!(ir.racer.as_ref().unwrap().needs_update);
    ir.racer_needs_update(false);
    assert!(!ir.racer.as_ref().unwrap().needs_update);
}

#[test]
fn overlap_stripping_cases() {
    assert_eq!(StringTools::strings_unique("pri", "println!"), "ntln!");
    assert_eq!(StringTools::strings_unique("let pri", "println!"), "ntln!");
    assert_eq!(StringTools::strings_unique("abc", "xyz"), "xyz");
    assert_eq!(StringTools::strings_unique("print", "print"), "");
    assert_eq!(StringTools::strings_unique("", "x"), "x");
    assert_eq!(StringTools::strings_unique("x", ""), "");
}

#[test]
fn decimal_rendering_is_exact() {
    assert_eq!(usize_to_string(0), "0");
    assert_eq!(usize_to_string(7), "7");
    assert_eq!(usize_to_string(1230), "1230");
}

#[test]
fn character_equality_of_texts() {
    assert!(str_eq("abc", "abc"));
    assert!(!str_eq("abc", "abd"));
    assert!(!str_eq("abc", "ab"));
    assert!(str_eq("", ""));
}

#[test]
fn first_argument_decides_the_command() {
    assert_eq!(parse_args(&vec![]), ArgCommand::NoArgs);
    assert_eq!(parse_args(&vec![String::from("-h")]), ArgCommand::Help);
    assert_eq!(parse_args(&vec![String::from("--help")]), ArgCommand::Help);
    assert_eq!(parse_args(&vec![String::from("-v")]), ArgCommand::Version);
    assert_eq!(
        parse_args(&vec![String::from("--version")]),
        ArgCommand::Version
    );
    assert_eq!(
        parse_args(&vec![String::from("--reset-config")]),
        ArgCommand::ResetConfig
    );
    assert_eq!(
        parse_args(&vec![String::from("bogus"), String::from("-h")]),
        ArgCommand::Unknown(String::from("bogus"))
    );
}
