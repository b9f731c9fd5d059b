use rrub::shell::{Point, Size, Terminal, TerminalAction};

fn terminal(x: i32, y: i32) -> Terminal {
    Terminal::new(Point { x, y }, Size { width: 10, height: 20 }, Size { width: 100, height: 100 }, 5)
}

#[test]
fn characters_are_drawn_and_advance() {
    let mut t = terminal(0, 20);
    assert_eq!(t.write_char('a'), vec![TerminalAction::DrawChar { c: 'a', x: 0, y: 20 }]);
    assert_eq!(t.cursor, Point { x: 10, y: 20 });
    assert_eq!(t.line_buffer, vec!['a']);
}

#[test]
fn line_wraps_when_next_character_does_not_fit() {
    let mut t = terminal(90, 20);
    let actions = t.write_char('z');
    assert_eq!(actions, vec![TerminalAction::DrawChar { c: 'z', x: 90, y: 20 }]);
    assert_eq!(t.cursor, Point { x: 0, y: 45 });
    assert!(t.line_buffer.is_empty());
}

#[test]
fn newline_scrolls_by_clearing() {
    let mut t = terminal(30, 60);
    assert_eq!(t.newline(), Some(TerminalAction::ClearScreen));
    assert_eq!(t.cursor, Point { x: 0, y: -25 });
    let mut t = terminal(30, 20);
    assert_eq!(t.newline(), None);
    assert_eq!(t.cursor, Point { x: 0, y: 45 });
}

#[test]
fn carriage_return_and_line_feed() {
    let mut t = terminal(40, 20);
    assert!(t.write_char('\r').is_empty());
    assert_eq!(t.cursor, Point { x: 0, y: 20 });
    let mut t = terminal(40, 20);
    assert!(t.write_char('\n').is_empty());
    assert_eq!(t.cursor, Point { x: 0, y: 45 });
}

#[test]
fn backspace_erases_the_previous_cell() {
    let mut t = terminal(20, 40);
    assert_eq!(t.backspace(), Some(TerminalAction::Erase { x: 10, y: 20, width: 10, height: 25 }));
    assert_eq!(t.cursor, Point { x: 10, y: 40 });
    let mut t = terminal(5, 40);
    assert_eq!(t.backspace(), None);
    assert_eq!(t.cursor, Point { x: 5, y: 40 });
}

#[test]
fn clearing() {
    let mut t = terminal(20, 40);
    t.write_char('q');
    assert_eq!(t.clear_screen(), TerminalAction::ClearScreen);
    assert_eq!(t.cursor, Point { x: 0, y: 0 });
    assert!(t.line_buffer.is_empty());
    assert_eq!(t.clear_line(25), TerminalAction::Erase { x: 0, y: 25, width: 100, height: 25 });
}

#[test]
fn strings_write_each_character() {
    let mut t = terminal(0, 20);
    let s: Vec<char> = "ab\ncd".chars().collect();
    let actions = t.write_str(&s);
    assert_eq!(actions, vec![
        TerminalAction::DrawChar { c: 'a', x: 0, y: 20 },
        TerminalAction::DrawChar { c: 'b', x: 10, y: 20 },
        TerminalAction::DrawChar { c: 'c', x: 0, y: 45 },
        TerminalAction::DrawChar { c: 'd', x: 10, y: 45 },
    ]);
    assert_eq!(t.line_buffer, vec!['c', 'd']);
}
