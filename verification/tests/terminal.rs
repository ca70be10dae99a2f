use terminal_viewer::terminal::{ClearType, Command, Direction, Position, Size, Terminal};

#[test]
fn position_zero_is_the_origin() {
    assert_eq!(Position::zero(), Position { x: 0, y: 0 });
    assert_eq!(Position::default(), Position::zero());
}

#[test]
fn new_terminal_has_nothing_queued() {
    assert!(Terminal::new().commands().is_empty());
    assert!(Terminal::default().into_commands().is_empty());
}

#[test]
fn initialize_queues_raw_mode_wipe_origin_flush() {
    let mut terminal = Terminal::new();
    terminal.initialize();
    assert_eq!(
        terminal.into_commands(),
        vec![
            Command::EnableRawMode,
            Command::Clear(ClearType::All),
            Command::MoveTo(Position { x: 0, y: 0 }),
            Command::Flush,
        ]
    );
}

#[test]
fn terminate_flushes_before_leaving_raw_mode() {
    let mut terminal = Terminal::new();
    terminal.terminate();
    assert_eq!(terminal.into_commands(), vec![Command::Flush, Command::DisableRawMode]);
}

#[test]
fn commands_queue_in_call_order() {
    let mut terminal = Terminal::new();
    terminal.hide_cursor();
    terminal.clear(ClearType::CurrentLine);
    terminal.set_cursor_to(Position { x: 3, y: 7 });
    terminal.print("text");
    terminal.move_curstor_to(Direction::LEFT);
    terminal.move_curstor_to(Direction::RIGHT);
    terminal.move_curstor_to(Direction::UP);
    terminal.move_curstor_to(Direction::DOWN);
    terminal.show_cursor();
    terminal.execute();
    terminal.queue_command(Command::Clear(ClearType::All));
    assert_eq!(
        terminal.commands(),
        &vec![
            Command::HideCursor,
            Command::Clear(ClearType::CurrentLine),
            Command::MoveTo(Position { x: 3, y: 7 }),
            Command::Print("text".to_string()),
            Command::Move(Direction::LEFT),
            Command::Move(Direction::RIGHT),
            Command::Move(Direction::UP),
            Command::Move(Direction::DOWN),
            Command::ShowCursor,
            Command::Flush,
            Command::Clear(ClearType::All),
        ]
    );
}

#[test]
fn queueing_keeps_what_was_queued() {
    let mut terminal = Terminal::new();
    terminal.print("a");
    terminal.initialize();
    terminal.terminate();
    let commands = terminal.into_commands();
    assert_eq!(commands.len(), 7);
    assert_eq!(commands[0], Command::Print("a".to_string()));
    assert_eq!(commands[1], Command::EnableRawMode);
    assert_eq!(commands[6], Command::DisableRawMode);
}

#[test]
fn size_takes_columns_then_rows() {
    assert_eq!(Terminal::size(80, 24), Size { height: 24, width: 80 });
    assert_eq!(Terminal::size(0, 0), Size { height: 0, width: 0 });
    assert_eq!(Terminal::size(u16::MAX, 1), Size { height: 1, width: 65535 });
}

#[test]
fn cursor_position_takes_column_then_row() {
    assert_eq!(Terminal::get_cursor_position(5, 2), Position { x: 5, y: 2 });
    assert_eq!(Terminal::get_cursor_position(0, u16::MAX), Position { x: 0, y: 65535 });
}
