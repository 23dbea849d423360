use irust::cursor::Cursor;
use irust::term::{ClearType, Color, TermCommand};
use irust::{Buffer, IRust, Options};

fn mk(height: usize, text: &str, pos: usize) -> IRust {
    IRust {
        cursor: Cursor::new(height),
        buffer: Buffer {
            text: String::from(text),
            pos,
        },
        repl_lines: 0,
        racer: None,
        options: Options {
            enable_racer: true,
            racer_color: Color::Cyan,
        },
    }
}

#[test]
fn write_emits_color_and_characters() {
    let mut ir = mk(10, "", 0);
    ir.cursor.goto(2, 1);
    let cmds = ir.write("ab", Color::Red);
    assert_eq!(
        cmds,
        vec![
            TermCommand::SetFg(Color::Red),
            TermCommand::WriteChar('a'),
            TermCommand::WriteChar('b'),
            TermCommand::ResetColor,
        ]
    );
    assert_eq!(ir.cursor.pos.current_pos, (4, 1));
}

#[test]
fn write_str_at_repositions_without_advancing() {
    let mut ir = mk(10, "", 0);
    let cmds = ir.write_str_at("hi", 2, 3);
    assert_eq!(
        cmds,
        vec![
            TermCommand::Goto(2, 3),
            TermCommand::WriteChar('h'),
            TermCommand::WriteChar('i'),
        ]
    );
    assert_eq!(ir.cursor.pos.current_pos, (2, 3));
}

#[test]
fn write_from_terminal_start_left_aligns() {
    let mut ir = mk(10, "", 0);
    ir.cursor.goto(5, 2);
    let cmds = ir.write_from_terminal_start("ok", Color::Green);
    assert_eq!(
        cmds,
        vec![
            TermCommand::Goto(0, 2),
            TermCommand::SetFg(Color::Green),
            TermCommand::WriteChar('o'),
            TermCommand::WriteChar('k'),
            TermCommand::ResetColor,
        ]
    );
    assert_eq!(ir.cursor.pos.current_pos, (2, 2));
}

#[test]
fn newline_in_the_middle_moves_down() {
    let mut ir = mk(10, "", 0);
    ir.cursor.goto(3, 4);
    let cmds = ir.write_newline();
    assert_eq!(cmds, vec![TermCommand::MoveDown(1)]);
    assert_eq!(ir.cursor.pos.current_pos, (3, 5));
    assert_eq!(ir.cursor.pos.starting_pos.1, 5);
}

#[test]
fn newline_on_last_row_scrolls_first() {
    let mut ir = mk(5, "", 0);
    ir.cursor.goto(0, 2);
    ir.cursor.use_current_row_as_starting_row();
    ir.cursor.goto(3, 4);
    let cmds = ir.write_newline();
    assert_eq!(
        cmds,
        vec![
            TermCommand::ScrollUp(1),
            TermCommand::MoveUp(1),
            TermCommand::MoveDown(1),
        ]
    );
    // the cursor stays on the last row; the anchor followed the scroll and
    // was then re-set to that row
    assert_eq!(ir.cursor.pos.current_pos, (3, 4));
    assert_eq!(ir.cursor.pos.starting_pos.1, 4);
}

#[test]
fn newline_then_anchor_agree() {
    let mut ir = mk(7, "", 0);
    ir.cursor.goto(2, 6);
    ir.write_newline();
    ir.cursor.use_current_row_as_starting_row();
    assert_eq!(
        ir.cursor.pos.starting_pos.1,
        ir.cursor.pos.current_pos.1
    );
}

#[test]
fn scroll_up_saturates_starting_row_at_zero() {
    let mut ir = mk(10, "", 0);
    ir.cursor.goto(0, 1);
    ir.cursor.use_current_row_as_starting_row();
    ir.cursor.goto(2, 5);
    let cmds = ir.scroll_up(3);
    assert_eq!(cmds, vec![TermCommand::ScrollUp(3), TermCommand::MoveUp(3)]);
    // starting row was 1: 1 - 3 stops at 0; current row 5 drops to 2
    assert_eq!(ir.cursor.pos.starting_pos.1, 0);
    assert_eq!(ir.cursor.pos.current_pos, (2, 2));
}

#[test]
fn scroll_up_subtracts_exactly_when_room() {
    let mut ir = mk(10, "", 0);
    ir.cursor.goto(0, 6);
    ir.cursor.use_current_row_as_starting_row();
    ir.cursor.goto(2, 8);
    ir.scroll_up(2);
    assert_eq!(ir.cursor.pos.starting_pos.1, 4);
    assert_eq!(ir.cursor.pos.current_pos.1, 6);
}

#[test]
fn clear_resets_anchor_and_rerenders_input_once() {
    let mut ir = mk(10, "hi", 2);
    ir.cursor.goto(8, 7);
    ir.cursor.use_current_row_as_starting_row();
    let cmds = ir.clear();
    assert_eq!(
        cmds,
        vec![
            TermCommand::Clear(ClearType::All),
            TermCommand::Goto(4, 0),
            TermCommand::WriteChar('h'),
            TermCommand::WriteChar('i'),
        ]
    );
    assert_eq!(ir.cursor.pos.starting_pos, (0, 0));
    assert_eq!(ir.cursor.pos.current_pos, (6, 0));
    assert_eq!(ir.buffer.pos, 0);
    assert_eq!(ir.buffer.text, "hi");
}

#[test]
fn write_input_renders_buffer_at_cursor() {
    let mut ir = mk(10, "ab", 0);
    ir.cursor.goto(4, 2);
    let cmds = ir.write_input();
    assert_eq!(
        cmds,
        vec![TermCommand::WriteChar('a'), TermCommand::WriteChar('b')]
    );
    assert_eq!(ir.cursor.pos.current_pos, (6, 2));
}
