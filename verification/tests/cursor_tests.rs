use irust::cursor::Cursor;

#[test]
fn move_right_accumulates_over_many_calls() {
    let mut c = Cursor::new(10);
    c.goto(7, 3);
    for _ in 0..5 {
        c.move_right_unbounded();
    }
    assert_eq!(c.pos.current_pos, (12, 3));
    assert_eq!(c.pos.starting_pos, (0, 0));
}

#[test]
fn move_down_and_up_adjust_row() {
    let mut c = Cursor::new(10);
    c.move_down(4);
    assert_eq!(c.pos.current_pos, (0, 4));
    c.move_up(2);
    assert_eq!(c.pos.current_pos, (0, 2));
}

#[test]
fn move_up_saturates_at_top() {
    let mut c = Cursor::new(10);
    c.goto(1, 3);
    c.move_up(9);
    assert_eq!(c.pos.current_pos, (1, 0));
}

#[test]
fn goto_leaves_starting_alone() {
    let mut c = Cursor::new(10);
    c.use_current_row_as_starting_row();
    c.goto(5, 6);
    assert_eq!(c.pos.current_pos, (5, 6));
    assert_eq!(c.pos.starting_pos, (0, 0));
}

#[test]
fn use_current_row_re_anchors() {
    let mut c = Cursor::new(10);
    c.goto(3, 7);
    c.use_current_row_as_starting_row();
    assert_eq!(c.pos.starting_pos, (0, 7));
    assert_eq!(c.pos.current_pos, (3, 7));
}

#[test]
fn last_row_query() {
    let mut c = Cursor::new(4);
    assert!(!c.is_at_last_terminal_row());
    c.goto(0, 3);
    assert!(c.is_at_last_terminal_row());
}
