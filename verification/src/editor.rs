//! The editor: the state of a viewing session and the rules that move it.
//!
//! The editor never waits and never touches the terminal. Each call hands
//! the host a [`Request`]: terminal commands to carry out, in order, and
//! the one thing to do after them. The host answers with a [`Reply`], and
//! the editor decides what comes next. A session starts with `run` and
//! goes on with `repl` until the request says to exit.

use crate::buffer::{error_message, split_text, FileProbe, LoadErrorView};
use crate::terminal::{
    command_views, terminate_commands, ClearType, Command, CommandView, Direction, Position, Size,
    Terminal,
};
use crate::terminal_view::{draw_commands, render_commands, View};
use vstd::prelude::*;
use vstd::string::*;
use vstd::view::View as _;

verus! {

/// The key of a key event, as far as the editor tells keys apart.
#[derive(Clone, Copy, Debug, PartialEq, Eq, Structural)]
pub enum KeyCode {
    /// A character key.
    Char(char),
    Left,
    Right,
    Up,
    Down,
    /// Any other key.
    Other,
}

/// The modifier keys held down during a key event.
#[derive(Clone, Copy, Debug, PartialEq, Eq, Structural)]
pub struct KeyModifiers {
    pub shift: bool,
    pub control: bool,
    pub alt: bool,
    pub super_key: bool,
    pub hyper: bool,
    pub meta: bool,
}

/// Whether a key went down, is held, or came up.
#[derive(Clone, Copy, Debug, PartialEq, Eq, Structural)]
pub enum KeyEventKind {
    Press,
    Repeat,
    Release,
}

/// Something that happened at the terminal.
#[derive(Clone, Copy, Debug, PartialEq, Eq, Structural)]
pub enum Event {
    /// A key event.
    Key { code: KeyCode, modifiers: KeyModifiers, kind: KeyEventKind },
    /// The terminal changed its size.
    Resize,
    /// Anything else: focus, mouse, pasted text.
    Other,
}

/// What an event asks of the editor.
#[derive(Clone, Copy, Debug, PartialEq, Eq, Structural)]
pub enum Action {
    /// End the session.
    Quit,
    /// Move the cursor one cell.
    Move(Direction),
    /// Draw the screen anew.
    Redraw,
    /// Nothing.
    Ignore,
}

/// Control held down, and no other modifier.
pub open spec fn only_control(modifiers: KeyModifiers) -> bool {
    modifiers.control && !modifiers.shift && !modifiers.alt && !modifiers.super_key
        && !modifiers.hyper && !modifiers.meta
}

/// What `event` asks for: pressing `q` with control alone quits, pressing
/// an arrow key moves the cursor, whatever the modifiers, a change of size
/// redraws, and nothing else counts.
pub open spec fn action_of(event: Event) -> Action {
    match event {
        Event::Key { code, modifiers, kind: KeyEventKind::Press } => match code {
            KeyCode::Char(c) => if c == 'q' && only_control(modifiers) {
                Action::Quit
            } else {
                Action::Ignore
            },
            KeyCode::Left => Action::Move(Direction::LEFT),
            KeyCode::Right => Action::Move(Direction::RIGHT),
            KeyCode::Up => Action::Move(Direction::UP),
            KeyCode::Down => Action::Move(Direction::DOWN),
            KeyCode::Other => Action::Ignore,
        },
        Event::Key { .. } => Action::Ignore,
        Event::Resize => Action::Redraw,
        Event::Other => Action::Ignore,
    }
}

/// How a session ends.
#[derive(Clone, Copy, Debug, PartialEq, Eq, Structural)]
pub enum Exit {
    /// The user quit.
    Quit,
    /// The file could not be loaded; the user was told why.
    LoadFailed,
    /// The terminal failed, or the host answered out of turn.
    Failed,
}

/// What the host does once it has carried out the commands of a request.
#[derive(Clone, Copy, Debug, PartialEq, Eq, Structural)]
pub enum Next {
    /// Look at the file and answer with `Reply::File`.
    ProbeFile,
    /// Ask the terminal for its size and answer with `Reply::Size`.
    QuerySize,
    /// Wait for the next event and answer with `Reply::Event`.
    ReadEvent,
    /// Ask the terminal where the cursor is and answer with `Reply::Cursor`.
    QueryCursor,
    /// Stop: the session is over.
    Exit(Exit),
}

/// The host's answer to a request.
#[derive(Debug, PartialEq, Eq)]
pub enum Reply {
    File(FileProbe),
    Size(Size),
    Event(Event),
    Cursor(Position),
    /// A command or the thing to do after them failed.
    Failed,
}

/// Terminal commands to carry out, in order, and what to do after them.
#[derive(Debug, PartialEq, Eq)]
pub struct Request {
    pub commands: Vec<Command>,
    pub next: Next,
}

/// A [`Request`] as a mathematical value.
pub struct RequestView {
    pub commands: Seq<CommandView>,
    pub next: Next,
}

impl vstd::view::View for Request {
    type V = RequestView;

    open spec fn view(&self) -> RequestView {
        RequestView { commands: command_views(self.commands@), next: self.next }
    }
}

/// The commands that end a refresh: the cursor goes where the editor has
/// it, shows again, and everything queued is flushed.
pub open spec fn cursor_commands(cursor: Position) -> Seq<CommandView> {
    seq![CommandView::MoveTo(cursor), CommandView::ShowCursor, CommandView::Flush]
}

/// The commands that take leave: with the cursor hidden the screen is
/// wiped, the cursor goes where the editor has it, the farewell is printed,
/// the cursor shows again, and everything is flushed.
pub open spec fn farewell_commands(cursor: Position) -> Seq<CommandView> {
    seq![
        CommandView::HideCursor,
        CommandView::Clear(ClearType::All),
        CommandView::MoveTo(cursor),
        CommandView::Print("Goodbye.\r\n"@),
        CommandView::ShowCursor,
        CommandView::Flush,
    ]
}

/// The state of a session as a mathematical value.
pub struct EditorState {
    /// Whether the user has quit. Once true it stays true.
    pub should_quit: bool,
    /// Where the editor has the cursor.
    pub cursor_position: Position,
    /// The lines on show.
    pub lines: Seq<Seq<char>>,
    /// Whether the screen is out of date.
    pub needs_render: bool,
    /// The path of the file on show.
    pub file_name: Seq<char>,
    /// What the host was last asked to do; `None` before the first request.
    pub pending: Option<Next>,
}

impl EditorState {
    /// The request `commands` and `next`, and the state that waits for its
    /// answer.
    pub open spec fn ask(self, commands: Seq<CommandView>, next: Next) -> (EditorState, RequestView) {
        (EditorState { pending: Some(next), ..self }, RequestView { commands, next })
    }

    /// The session ends in failure: the terminal is shut down.
    pub open spec fn fail(self) -> (EditorState, RequestView) {
        self.ask(terminate_commands(), Next::Exit(Exit::Failed))
    }

    /// A session begins on the file `file_name`: the terminal is
    /// initialised, the screen counts as out of date, and the host is to
    /// look at the file.
    pub open spec fn run(self, file_name: Seq<char>) -> (EditorState, RequestView) {
        (EditorState { needs_render: true, file_name, ..self }).ask(
            crate::terminal::initialize_commands(),
            Next::ProbeFile,
        )
    }

    /// The screen is brought up to date.
    ///
    /// After quitting, the farewell is drawn, and nothing more, and the
    /// session ends. Else the cursor is hidden; where the screen is out of
    /// date the host is to report the size of the terminal before anything
    /// is drawn, and where it is not, the cursor is put back and the host
    /// is to wait for an event.
    pub open spec fn refresh(self) -> (EditorState, RequestView) {
        if self.should_quit {
            self.ask(farewell_commands(self.cursor_position), Next::Exit(Exit::Quit))
        } else if self.needs_render {
            self.ask(seq![CommandView::HideCursor], Next::QuerySize)
        } else {
            self.ask(
                seq![CommandView::HideCursor] + cursor_commands(self.cursor_position),
                Next::ReadEvent,
            )
        }
    }

    /// One turn of the session: the screen is refreshed, and after quitting
    /// the terminal is shut down behind the farewell.
    pub open spec fn turn(self) -> (EditorState, RequestView) {
        let (after, request) = self.refresh();
        if self.should_quit {
            (
                after,
                RequestView {
                    commands: request.commands + terminate_commands(),
                    next: request.next,
                },
            )
        } else {
            (after, request)
        }
    }

    /// The host has looked at the file: its lines go on show and a turn
    /// is taken, or the user is told why not, the terminal is shut
    /// down, and the session ends.
    pub open spec fn loaded(self, probe: FileProbe) -> (EditorState, RequestView) {
        match probe {
            FileProbe::Text(text) => (EditorState { lines: split_text(text@), ..self }).turn(),
            FileProbe::Directory => self.load_failed(LoadErrorView::Directory(self.file_name)),
            FileProbe::Unreadable(reason) => self.load_failed(LoadErrorView::Io(reason@)),
        }
    }

    /// The file could not be loaded: the user is told why, the terminal is
    /// shut down, and the session ends.
    pub open spec fn load_failed(self, error: LoadErrorView) -> (EditorState, RequestView) {
        self.ask(
            seq![CommandView::Print(error_message(error))] + terminate_commands(),
            Next::Exit(Exit::LoadFailed),
        )
    }

    /// The host has reported the size of the terminal: the view is
    /// rendered, the cursor is put back, and the host is to wait for an
    /// event.
    pub open spec fn sized(self, size: Size) -> (EditorState, RequestView) {
        (EditorState { needs_render: false, ..self }).ask(
            render_commands(self.lines, self.needs_render, size) + cursor_commands(
                self.cursor_position,
            ),
            Next::ReadEvent,
        )
    }

    /// The state after `event`, before anything is drawn.
    pub open spec fn evaluated(self, event: Event) -> EditorState {
        match action_of(event) {
            Action::Quit => EditorState {
                should_quit: true,
                cursor_position: Position { x: 0, y: 0 },
                ..self
            },
            Action::Redraw => EditorState { needs_render: true, ..self },
            Action::Move(_) => self,
            Action::Ignore => self,
        }
    }

    /// The host has read `event`: for a move of the cursor the move is
    /// queued and the host is to report where the cursor went; after
    /// anything else a turn is taken.
    pub open spec fn happened(self, event: Event) -> (EditorState, RequestView) {
        match action_of(event) {
            Action::Move(direction) => self.ask(
                seq![CommandView::Move(direction)],
                Next::QueryCursor,
            ),
            _ => self.evaluated(event).turn(),
        }
    }

    /// The host has reported the cursor at `position`: the editor takes it
    /// as its own and a turn is taken.
    pub open spec fn moved(self, position: Position) -> (EditorState, RequestView) {
        (EditorState { cursor_position: position, ..self }).turn()
    }

    /// The step that `reply` brings about: a reply that answers what the
    /// host was asked moves the session on, and any other, a report of
    /// failure among them, ends it in failure.
    pub open spec fn step(self, reply: Reply) -> (EditorState, RequestView) {
        match (self.pending, reply) {
            (Some(Next::ProbeFile), Reply::File(probe)) => self.loaded(probe),
            (Some(Next::QuerySize), Reply::Size(size)) => self.sized(size),
            (Some(Next::ReadEvent), Reply::Event(event)) => self.happened(event),
            (Some(Next::QueryCursor), Reply::Cursor(position)) => self.moved(position),
            _ => self.fail(),
        }
    }
}

/// The state before a session: not quit, the cursor at the origin, no line
/// on show, the screen out of date, and nothing asked of the host.
pub open spec fn initial_state() -> EditorState {
    EditorState {
        should_quit: false,
        cursor_position: Position { x: 0, y: 0 },
        lines: Seq::empty(),
        needs_render: true,
        file_name: Seq::empty(),
        pending: None,
    }
}

/// The editor of one viewing session.
#[derive(Debug, PartialEq, Eq)]
pub struct TerminalEditor {
    should_quit: bool,
    cursor_position: Position,
    view: View,
    file_name: String,
    pending: Option<Next>,
}

impl vstd::view::View for TerminalEditor {
    type V = EditorState;

    closed spec fn view(&self) -> EditorState {
        EditorState {
            should_quit: self.should_quit,
            cursor_position: self.cursor_position,
            lines: self.view.lines(),
            needs_render: self.view.needs_render,
            file_name: self.file_name@,
            pending: self.pending,
        }
    }
}

impl Default for TerminalEditor {
    fn default() -> (editor: Self)
        ensures
            editor@ == initial_state(),
    {
        TerminalEditor {
            should_quit: false,
            cursor_position: Position::zero(),
            view: View::default(),
            file_name: String::new(),
            pending: None,
        }
    }
}

impl TerminalEditor {
    /// Whether the user has quit.
    pub fn should_quit(&self) -> (quit: bool)
        ensures
            quit == self@.should_quit,
    {
        self.should_quit
    }

    /// Where the editor has the cursor.
    pub fn cursor_position(&self) -> (position: Position)
        ensures
            position == self@.cursor_position,
    {
        self.cursor_position
    }

    /// The view of the file on show.
    pub fn shown(&self) -> (view: &View)
        ensures
            view.lines() == self@.lines,
            view.needs_render == self@.needs_render,
    {
        &self.view
    }

    /// What the host was last asked to do, if anything.
    pub fn pending(&self) -> (pending: Option<Next>)
        ensures
            pending == self@.pending,
    {
        self.pending
    }

    /// Begins a session on the file `file_name`.
    ///
    /// The request initialises the terminal and sends the host to look at
    /// the file; the screen counts as out of date from here on.
    pub fn run(&mut self, file_name: &str) -> (request: Request)
        ensures
            final(self)@ == old(self)@.run(file_name@).0,
            request@ == old(self)@.run(file_name@).1,
    {
        let mut terminal = Terminal::new();
        terminal.initialize();
        self.view.set_needs_render(true);
        self.file_name = String::from_str(file_name);
        self.pending = Some(Next::ProbeFile);
        Request { commands: terminal.into_commands(), next: Next::ProbeFile }
    }

    /// Takes the host's reply and says what comes next.
    ///
    /// A reply that answers the pending request moves the session on by
    /// one step: the file goes on show, the screen is drawn, an event is
    /// dealt with, or the cursor is taken over. Any other reply ends the
    /// session in failure, with the terminal shut down.
    pub fn repl(&mut self, reply: Reply) -> (request: Request)
        ensures
            final(self)@ == old(self)@.step(reply).0,
            request@ == old(self)@.step(reply).1,
    {
        let mut terminal = Terminal::new();
        let next = match reply {
            Reply::File(probe) => match self.pending {
                Some(Next::ProbeFile) => match self.view.load(self.file_name.as_str(), probe) {
                    Ok(()) => self.take_turn(&mut terminal),
                    Err(error) => {
                        terminal.print(error.message().as_str());
                        terminal.terminate();
                        Next::Exit(Exit::LoadFailed)
                    },
                },
                _ => Self::give_up(&mut terminal),
            },
            Reply::Size(size) => match self.pending {
                Some(Next::QuerySize) => {
                    self.view.render(size, &mut terminal);
                    self.restore_cursor(&mut terminal);
                    Next::ReadEvent
                },
                _ => Self::give_up(&mut terminal),
            },
            Reply::Event(event) => match self.pending {
                Some(Next::ReadEvent) => {
                    if self.evalutate_event(&event, &mut terminal) {
                        Next::QueryCursor
                    } else {
                        self.take_turn(&mut terminal)
                    }
                },
                _ => Self::give_up(&mut terminal),
            },
            Reply::Cursor(position) => match self.pending {
                Some(Next::QueryCursor) => {
                    self.cursor_position = position;
                    self.take_turn(&mut terminal)
                },
                _ => Self::give_up(&mut terminal),
            },
            Reply::Failed => Self::give_up(&mut terminal),
        };
        self.pending = Some(next);
        Request { commands: terminal.into_commands(), next }
    }

    /// Deals with `event`, short of drawing.
    ///
    /// Quitting puts the cursor at the origin and is final; a move of the
    /// cursor is queued on `terminal`, and the result says so, as the host
    /// then has to report where the cursor went; a change of size marks the
    /// screen out of date.
    pub fn evalutate_event(&mut self, event: &Event, terminal: &mut Terminal) -> (moved: bool)
        ensures
            final(self)@ == old(self)@.evaluated(*event),
            moved == (action_of(*event) is Move),
            final(terminal)@ == old(terminal)@ + (match action_of(*event) {
                Action::Move(direction) => seq![CommandView::Move(direction)],
                _ => Seq::empty(),
            }),
    {
        match Self::action(event) {
            Action::Quit => {
                self.cursor_position = Position::zero();
                self.should_quit = true;
                assert(terminal@ + Seq::<CommandView>::empty() == terminal@);
                false
            },
            Action::Move(direction) => {
                terminal.move_curstor_to(direction);
                true
            },
            Action::Redraw => {
                self.view.set_needs_render(true);
                assert(terminal@ + Seq::<CommandView>::empty() == terminal@);
                false
            },
            Action::Ignore => {
                assert(terminal@ + Seq::<CommandView>::empty() == terminal@);
                false
            },
        }
    }

    /// What `event` asks of the editor.
    pub fn action(event: &Event) -> (action: Action)
        ensures
            action == action_of(*event),
    {
        match event {
            Event::Key { code, modifiers, kind: KeyEventKind::Press } => match code {
                KeyCode::Char(c) => {
                    if *c == 'q' && modifiers.control && !modifiers.shift && !modifiers.alt
                        && !modifiers.super_key && !modifiers.hyper && !modifiers.meta {
                        Action::Quit
                    } else {
                        Action::Ignore
                    }
                },
                KeyCode::Left => Action::Move(Direction::LEFT),
                KeyCode::Right => Action::Move(Direction::RIGHT),
                KeyCode::Up => Action::Move(Direction::UP),
                KeyCode::Down => Action::Move(Direction::DOWN),
                KeyCode::Other => Action::Ignore,
            },
            Event::Key { .. } => Action::Ignore,
            Event::Resize => Action::Redraw,
            Event::Other => Action::Ignore,
        }
    }

    /// Queues what brings the screen up to date, as far as it can be done
    /// without asking the host, and says what the host does next.
    ///
    /// After quitting: the farewell, and nothing more, and the session
    /// ends. Else the cursor is hidden, and either the host is to report
    /// the terminal's size, as the screen is out of date, or the cursor is
    /// put back and the host is to wait for an event.
    pub fn refresh_screen(&self, terminal: &mut Terminal) -> (next: Next)
        ensures
            next == self@.refresh().1.next,
            final(terminal)@ == old(terminal)@ + self@.refresh().1.commands,
    {
        terminal.hide_cursor();
        if self.should_quit {
            terminal.clear(ClearType::All);
            terminal.set_cursor_to(self.cursor_position);
            terminal.print("Goodbye.\r\n");
            terminal.show_cursor();
            terminal.execute();
            return Next::Exit(Exit::Quit);
        }
        if self.view.needs_render {
            return Next::QuerySize;
        }
        self.restore_cursor(terminal);
        Next::ReadEvent
    }

    /// Takes one turn of the session: refreshes the screen and, after
    /// quitting, queues the shutdown of the terminal behind the farewell.
    pub fn take_turn(&self, terminal: &mut Terminal) -> (next: Next)
        ensures
            next == self@.turn().1.next,
            final(terminal)@ == old(terminal)@ + self@.turn().1.commands,
    {
        let next = self.refresh_screen(terminal);
        if self.should_quit {
            terminal.terminate();
        }
        next
    }

    /// Queues the end of a refresh: the cursor goes where the editor has
    /// it, shows again, and everything queued is flushed.
    pub fn restore_cursor(&self, terminal: &mut Terminal)
        ensures
            final(terminal)@ == old(terminal)@ + cursor_commands(self@.cursor_position),
    {
        terminal.set_cursor_to(self.cursor_position);
        terminal.show_cursor();
        terminal.execute();
    }

    /// Queues the shutdown of the terminal after a failure.
    fn give_up(terminal: &mut Terminal) -> (next: Next)
        ensures
            next == Next::Exit(Exit::Failed),
            final(terminal)@ == old(terminal)@ + terminate_commands(),
    {
        terminal.terminate();
        Next::Exit(Exit::Failed)
    }
}

/// Pressing `q` with control alone.
pub open spec fn quit_key() -> Event {
    Event::Key {
        code: KeyCode::Char('q'),
        modifiers: KeyModifiers {
            shift: false,
            control: true,
            alt: false,
            super_key: false,
            hyper: false,
            meta: false,
        },
        kind: KeyEventKind::Press,
    }
}

/// Quitting is final: once the user has quit, no reply and no new start
/// takes that back.
pub proof fn lemma_quit_is_final(state: EditorState, reply: Reply, file_name: Seq<char>)
    requires
        state.should_quit,
    ensures
        state.step(reply).0.should_quit,
        state.run(file_name).0.should_quit,
{
}

/// Whenever a session ends, the terminal is shut down last: the commands
/// of a request that says to exit end with a flush and raw mode off.
pub proof fn lemma_exit_shuts_terminal_down(state: EditorState, reply: Reply)
    requires
        state.step(reply).1.next is Exit,
    ensures
        ({
            let commands = state.step(reply).1.commands;
            commands.len() >= 2 && commands.skip(commands.len() - 2) == terminate_commands()
        }),
{
    let commands = state.step(reply).1.commands;
    assert(commands.len() >= 2);
    assert(commands.skip(commands.len() - 2) == terminate_commands());
}

/// After quitting, a refresh takes leave and does nothing more: the cursor
/// is hidden, the screen wiped, the cursor put where the editor has it,
/// the farewell printed, the cursor shown and everything flushed. Raw mode
/// is left alone; the turn that the refresh is part of sees to it.
pub proof fn lemma_last_refresh_takes_leave(state: EditorState)
    requires
        state.should_quit,
    ensures
        state.refresh().1.next == Next::Exit(Exit::Quit),
        state.refresh().1.commands == farewell_commands(state.cursor_position),
        state.refresh().1.commands.len() == 6,
        state.refresh().1.commands.last() == CommandView::Flush,
        state.turn().1.commands == state.refresh().1.commands + terminate_commands(),
        state.turn().0 == state.refresh().0,
{
}

/// The quit key, read while the editor waits for an event, ends the
/// session wherever the cursor was: the editor has quit and has the cursor
/// at the origin, and the request wipes the screen, prints the farewell
/// with the cursor at the origin, and shuts the terminal down.
pub proof fn lemma_quit_key_takes_leave(state: EditorState)
    requires
        state.pending == Some(Next::ReadEvent),
    ensures
        ({
            let (after, request) = state.step(Reply::Event(quit_key()));
            &&& after.should_quit
            &&& after.cursor_position == Position { x: 0, y: 0 }
            &&& after.lines == state.lines
            &&& request.next == Next::Exit(Exit::Quit)
            &&& request.commands == farewell_commands(Position { x: 0, y: 0 })
                + terminate_commands()
        }),
{
}

/// A change of size, read while the session is running, has the whole
/// screen drawn next, whether or not it was up to date: the editor asks
/// for the size, and on the answer it draws every row and puts the cursor
/// back.
pub proof fn lemma_resize_redraws(state: EditorState, size: Size)
    requires
        state.pending == Some(Next::ReadEvent),
        !state.should_quit,
    ensures
        ({
            let (resized, first) = state.step(Reply::Event(Event::Resize));
            let (drawn, second) = resized.step(Reply::Size(size));
            &&& first.next == Next::QuerySize
            &&& first.commands == seq![CommandView::HideCursor]
            &&& second.next == Next::ReadEvent
            &&& second.commands == draw_commands(
                state.lines,
                size.width as int,
                size.height as int,
            ) + cursor_commands(state.cursor_position)
            &&& !drawn.needs_render
        }),
{
}

/// What was drawn is not drawn again: after the screen was drawn, an event
/// that asks for nothing leaves the lines alone, and the refresh that
/// follows it only hides the cursor and puts it back.
pub proof fn lemma_draws_once(state: EditorState, size: Size, event: Event)
    requires
        state.pending == Some(Next::QuerySize),
        !state.should_quit,
        action_of(event) == Action::Ignore,
    ensures
        ({
            let (drawn, _) = state.step(Reply::Size(size));
            let (after, request) = drawn.step(Reply::Event(event));
            &&& request.next == Next::ReadEvent
            &&& request.commands == seq![CommandView::HideCursor] + cursor_commands(
                state.cursor_position,
            )
            &&& after == drawn
        }),
{
}

} // verus!
