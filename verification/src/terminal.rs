//! Terminal geometry and the queue of commands bound for the terminal.
//!
//! Nothing here touches the terminal. [`Terminal`] records, in order, what
//! the host has to do to it; the host takes the recorded commands and carries
//! them out one by one, stopping at the first that fails.

use vstd::prelude::*;
use vstd::string::*;

verus! {

/// A cell of the terminal grid: zero-based column `x` and row `y`.
#[derive(Clone, Copy, Debug, PartialEq, Eq, Structural)]
pub struct Position {
    pub x: usize,
    pub y: usize,
}

impl Position {
    /// The top-left cell.
    pub fn zero() -> (origin: Self)
        ensures
            origin == (Position { x: 0, y: 0 }),
    {
        Self { x: 0, y: 0 }
    }
}

impl Default for Position {
    fn default() -> (origin: Self)
        ensures
            origin == (Position { x: 0, y: 0 }),
    {
        Position::zero()
    }
}

/// The extent of the terminal grid in character cells.
#[derive(Clone, Copy, Debug, PartialEq, Eq, Structural)]
pub struct Size {
    pub height: usize,
    pub width: usize,
}

/// The four ways to move the cursor by one cell.
#[allow(non_camel_case_types)]
#[allow(clippy::upper_case_acronyms)]
#[derive(Clone, Copy, Debug, PartialEq, Eq, Structural)]
pub enum Direction {
    LEFT,
    RIGHT,
    UP,
    DOWN,
}

/// How much of the screen a clear command wipes.
#[derive(Clone, Copy, Debug, PartialEq, Eq, Structural)]
pub enum ClearType {
    /// Every cell.
    All,
    /// The cells of the row the cursor is on.
    CurrentLine,
}

/// One thing for the host to do to the terminal.
///
/// Everything but the raw-mode switches and `Flush` is a buffered write:
/// it shows on the screen once a later `Flush` has been carried out.
#[derive(Debug, PartialEq, Eq)]
pub enum Command {
    /// Deliver keystrokes at once and unprocessed, without echo.
    EnableRawMode,
    /// Give the terminal back its line discipline.
    DisableRawMode,
    /// Wipe cells.
    Clear(ClearType),
    /// Put the cursor on a cell.
    MoveTo(Position),
    /// Move the cursor one cell; at an edge the terminal keeps it in place.
    Move(Direction),
    /// Make the cursor invisible.
    HideCursor,
    /// Make the cursor visible.
    ShowCursor,
    /// Write text at the cursor.
    Print(String),
    /// Send every buffered write to the terminal.
    Flush,
}

/// A [`Command`] as a mathematical value: printed text is a sequence of
/// characters.
pub enum CommandView {
    EnableRawMode,
    DisableRawMode,
    Clear(ClearType),
    MoveTo(Position),
    Move(Direction),
    HideCursor,
    ShowCursor,
    Print(Seq<char>),
    Flush,
}

impl View for Command {
    type V = CommandView;

    open spec fn view(&self) -> CommandView {
        match *self {
            Command::EnableRawMode => CommandView::EnableRawMode,
            Command::DisableRawMode => CommandView::DisableRawMode,
            Command::Clear(clear_type) => CommandView::Clear(clear_type),
            Command::MoveTo(position) => CommandView::MoveTo(position),
            Command::Move(direction) => CommandView::Move(direction),
            Command::HideCursor => CommandView::HideCursor,
            Command::ShowCursor => CommandView::ShowCursor,
            Command::Print(text) => CommandView::Print(text@),
            Command::Flush => CommandView::Flush,
        }
    }
}

/// The views of a sequence of commands, in the same order.
pub open spec fn command_views(commands: Seq<Command>) -> Seq<CommandView> {
    Seq::new(commands.len(), |i: int| commands[i]@)
}

/// What initialising the terminal queues: raw mode on, the screen wiped,
/// the cursor at the origin, and a flush.
pub open spec fn initialize_commands() -> Seq<CommandView> {
    seq![
        CommandView::EnableRawMode,
        CommandView::Clear(ClearType::All),
        CommandView::MoveTo(Position { x: 0, y: 0 }),
        CommandView::Flush,
    ]
}

/// What shutting the terminal down queues: a flush, then raw mode off.
pub open spec fn terminate_commands() -> Seq<CommandView> {
    seq![CommandView::Flush, CommandView::DisableRawMode]
}

/// The commands queued for the terminal and not yet handed to the host.
pub struct Terminal {
    queue: Vec<Command>,
}

impl View for Terminal {
    type V = Seq<CommandView>;

    closed spec fn view(&self) -> Seq<CommandView> {
        command_views(self.queue@)
    }
}

impl Default for Terminal {
    fn default() -> (terminal: Self)
        ensures
            terminal@ == Seq::<CommandView>::empty(),
    {
        Terminal::new()
    }
}

impl Terminal {
    /// A terminal with nothing queued.
    pub fn new() -> (terminal: Self)
        ensures
            terminal@ == Seq::<CommandView>::empty(),
    {
        Terminal { queue: Vec::new() }
    }

    /// Appends one command to the queue.
    pub fn queue_command(&mut self, command: Command)
        ensures
            final(self)@ == old(self)@.push(command@),
    {
        self.queue.push(command);
    }

    /// Queues raw mode on, a wipe of the whole screen, the cursor at the
    /// origin, and a flush.
    pub fn initialize(&mut self)
        ensures
            final(self)@ == old(self)@ + initialize_commands(),
    {
        self.queue_command(Command::EnableRawMode);
        self.clear(ClearType::All);
        self.set_cursor_to(Position::zero());
        self.execute();
    }

    /// Queues a flush of what is pending, then raw mode off.
    pub fn terminate(&mut self)
        ensures
            final(self)@ == old(self)@ + terminate_commands(),
    {
        self.execute();
        self.queue_command(Command::DisableRawMode);
    }

    /// Queues a wipe of the whole screen or of the cursor's row.
    pub fn clear(&mut self, clear_type: ClearType)
        ensures
            final(self)@ == old(self)@.push(CommandView::Clear(clear_type)),
    {
        self.queue_command(Command::Clear(clear_type));
    }

    /// Queues a move of the cursor to `pos`.
    pub fn set_cursor_to(&mut self, pos: Position)
        ensures
            final(self)@ == old(self)@.push(CommandView::MoveTo(pos)),
    {
        self.queue_command(Command::MoveTo(pos));
    }

    /// Queues a move of the cursor by one cell in direction `dir`.
    pub fn move_curstor_to(&mut self, dir: Direction)
        ensures
            final(self)@ == old(self)@.push(CommandView::Move(dir)),
    {
        self.queue_command(Command::Move(dir));
    }

    /// The cursor position that the terminal reported as `column` and `row`.
    pub fn get_cursor_position(column: u16, row: u16) -> (position: Position)
        ensures
            position.x == column,
            position.y == row,
    {
        Position { x: column as usize, y: row as usize }
    }

    /// The size that the terminal reported as `columns` and `rows`.
    pub fn size(columns: u16, rows: u16) -> (size: Size)
        ensures
            size.width == columns,
            size.height == rows,
    {
        Size { height: rows as usize, width: columns as usize }
    }

    /// Queues making the cursor visible.
    pub fn show_cursor(&mut self)
        ensures
            final(self)@ == old(self)@.push(CommandView::ShowCursor),
    {
        self.queue_command(Command::ShowCursor);
    }

    /// Queues making the cursor invisible.
    pub fn hide_cursor(&mut self)
        ensures
            final(self)@ == old(self)@.push(CommandView::HideCursor),
    {
        self.queue_command(Command::HideCursor);
    }

    /// Queues writing `msg` at the cursor.
    pub fn print(&mut self, msg: &str)
        ensures
            final(self)@ == old(self)@.push(CommandView::Print(msg@)),
    {
        self.queue_command(Command::Print(String::from_str(msg)));
    }

    /// Queues a flush: the host sends every write queued so far.
    pub fn execute(&mut self)
        ensures
            final(self)@ == old(self)@.push(CommandView::Flush),
    {
        self.queue_command(Command::Flush);
    }

    /// The queued commands, oldest first.
    pub fn commands(&self) -> (commands: &Vec<Command>)
        ensures
            command_views(commands@) == self@,
    {
        &self.queue
    }

    /// Hands the queued commands over, oldest first.
    pub fn into_commands(self) -> (commands: Vec<Command>)
        ensures
            command_views(commands@) == self@,
    {
        self.queue
    }
}

/// The texts that `commands` print, in the order in which they print them.
pub open spec fn printed_texts(commands: Seq<CommandView>) -> Seq<Seq<char>>
    decreases commands.len(),
{
    if commands.len() == 0 {
        Seq::empty()
    } else {
        let before = printed_texts(commands.drop_last());
        match commands.last() {
            CommandView::Print(text) => before.push(text),
            _ => before,
        }
    }
}

/// One more command adds its text to the printed texts, if it prints.
pub proof fn lemma_printed_texts_push(commands: Seq<CommandView>, command: CommandView)
    ensures
        printed_texts(commands.push(command)) == match command {
            CommandView::Print(text) => printed_texts(commands).push(text),
            _ => printed_texts(commands),
        },
{
    assert(commands.push(command).drop_last() == commands);
}

/// What two runs of commands print is what the first prints, then what the
/// second prints.
pub proof fn lemma_printed_texts_concat(first: Seq<CommandView>, second: Seq<CommandView>)
    ensures
        printed_texts(first + second) == printed_texts(first) + printed_texts(second),
    decreases second.len(),
{
    if second.len() == 0 {
        assert(first + second == first);
    } else {
        let shorter = second.drop_last();
        assert(first + second == (first + shorter).push(second.last()));
        assert(second == shorter.push(second.last()));
        lemma_printed_texts_concat(first, shorter);
        lemma_printed_texts_push(first + shorter, second.last());
        lemma_printed_texts_push(shorter, second.last());
    }
}

} // verus!
