//! The view: the line buffer drawn onto the terminal grid.
//!
//! Row `r` of the terminal shows line `r` of the buffer, cut to the width
//! of the terminal, or a `~` where the buffer has no such line. Nothing
//! scrolls and nothing wraps.

use crate::buffer::{split_text, Buffer, FileProbe, LoadError, LoadErrorView};
use crate::terminal::{
    lemma_printed_texts_concat, lemma_printed_texts_push, printed_texts, ClearType, CommandView,
    Position, Size, Terminal,
};
use vstd::prelude::*;
use vstd::string::*;
use vstd::view::View as _;

verus! {

/// `line` cut to its first `width` characters.
pub open spec fn clip(line: Seq<char>, width: int) -> Seq<char> {
    if line.len() <= width {
        line
    } else if width <= 0 {
        Seq::empty()
    } else {
        line.take(width)
    }
}

/// What row `row` shows of `lines` on a terminal `width` cells wide.
pub open spec fn row_text(lines: Seq<Seq<char>>, width: int, row: int) -> Seq<char> {
    if 0 <= row < lines.len() {
        clip(lines[row], width)
    } else {
        seq!['~']
    }
}

/// The commands that draw row `row`: the cursor goes to the start of the
/// row, the row is wiped, and its text is printed. Behind the text of a
/// line the cursor goes back to the start of the row.
pub open spec fn row_commands(lines: Seq<Seq<char>>, width: int, row: int) -> Seq<CommandView> {
    let start = CommandView::MoveTo(Position { x: 0, y: row as usize });
    let draw = seq![
        start,
        CommandView::Clear(ClearType::CurrentLine),
        CommandView::Print(row_text(lines, width, row)),
    ];
    if 0 <= row < lines.len() {
        draw.push(start)
    } else {
        draw
    }
}

/// The commands that draw the rows `0` to `rows - 1`, top to bottom.
pub open spec fn draw_commands(lines: Seq<Seq<char>>, width: int, rows: int) -> Seq<CommandView>
    decreases rows,
{
    if rows <= 0 {
        Seq::empty()
    } else {
        draw_commands(lines, width, rows - 1) + row_commands(lines, width, rows - 1)
    }
}

/// What rendering queues on a terminal of size `size`: the commands for
/// every row where the screen is out of date, and nothing where it is not.
pub open spec fn render_commands(lines: Seq<Seq<char>>, needs_render: bool, size: Size) -> Seq<
    CommandView,
> {
    if needs_render {
        draw_commands(lines, size.width as int, size.height as int)
    } else {
        Seq::empty()
    }
}

/// The first `width` characters of `line`, or all of it where it has fewer.
pub fn truncated<'a>(line: &'a str, width: usize) -> (shown: &'a str)
    ensures
        shown@ == clip(line@, width as int),
{
    let length = line.unicode_len();
    if length <= width {
        line
    } else {
        line.substring_char(0, width)
    }
}

/// The buffer on show and whether the screen is out of date.
#[derive(Debug, PartialEq, Eq)]
pub struct View {
    /// The lines on show.
    pub buffer: Buffer,
    /// Whether the next `render` has to draw.
    pub needs_render: bool,
}

impl Default for View {
    fn default() -> (view: Self)
        ensures
            view.lines() == Seq::<Seq<char>>::empty(),
            view.needs_render,
    {
        View { buffer: Buffer::default(), needs_render: true }
    }
}

impl View {
    /// The lines on show, first line first.
    pub open spec fn lines(&self) -> Seq<Seq<char>> {
        self.buffer@
    }

    /// What rendering this view queues on a terminal of size `size`.
    pub open spec fn commands(&self, size: Size) -> Seq<CommandView> {
        render_commands(self.lines(), self.needs_render, size)
    }

    /// This view with the screen said to be out of date, or up to date.
    pub open spec fn marked(self, needs_render: bool) -> View {
        View { buffer: self.buffer, needs_render }
    }

    /// This view once it has been rendered: the same buffer, up to date.
    pub open spec fn rendered(self) -> View {
        self.marked(false)
    }

    /// Draws the buffer onto a terminal of size `size`, if the screen is out
    /// of date: the commands for every row, top to bottom, are queued on
    /// `terminal`, and the screen counts as up to date. Otherwise nothing
    /// is queued.
    pub fn render(&mut self, size: Size, terminal: &mut Terminal)
        ensures
            *final(self) == old(self).rendered(),
            final(terminal)@ == old(terminal)@ + old(self).commands(size),
    {
        if !self.needs_render {
            return ;
        }
        let ghost lines = self.lines();
        let ghost queued = terminal@;
        let mut row: usize = 0;
        while row < size.height
            invariant
                row <= size.height,
                *self == *old(self),
                self.lines() == lines,
                terminal@ == queued + draw_commands(lines, size.width as int, row as int),
            decreases size.height - row,
        {
            let start = Position { x: 0, y: row };
            terminal.set_cursor_to(start);
            terminal.clear(ClearType::CurrentLine);
            if row < self.buffer.lines.len() {
                terminal.print(truncated(self.buffer.lines[row].as_str(), size.width));
                terminal.set_cursor_to(start);
            } else {
                Self::draw_empty_row(terminal);
            }
            row += 1;
        }
        self.set_needs_render(false);
    }

    /// Queues the mark of a row below the last line: a single `~`.
    pub fn draw_empty_row(terminal: &mut Terminal)
        ensures
            final(terminal)@ == old(terminal)@.push(CommandView::Print(seq!['~'])),
    {
        proof {
            reveal_strlit("~");
        }
        assert("~"@ == seq!['~']);
        terminal.print("~");
    }

    /// Puts the file `file_name` on show, from what the host found there.
    ///
    /// Where the host read the file, its lines replace the buffer. Where it
    /// did not, the view stays as it was and the error says why: for a
    /// directory the error of its own, else the host's reason.
    pub fn load(&mut self, file_name: &str, probe: FileProbe) -> (result: Result<(), LoadError>)
        ensures
            final(self).needs_render == old(self).needs_render,
            match probe {
                FileProbe::Directory => result matches Err(error) && error@
                    == LoadErrorView::Directory(file_name@) && final(self).lines() == old(
                    self,
                ).lines(),
                FileProbe::Unreadable(reason) => result matches Err(error) && error@
                    == LoadErrorView::Io(reason@) && final(self).lines() == old(self).lines(),
                FileProbe::Text(text) => result is Ok && final(self).lines() == split_text(text@),
            },
    {
        match Buffer::load_file(file_name, probe) {
            Ok(buffer) => {
                self.buffer = buffer;
                Ok(())
            },
            Err(error) => Err(error),
        }
    }

    /// Says whether the screen is out of date.
    pub fn set_needs_render(&mut self, val: bool)
        ensures
            *final(self) == old(self).marked(val),
    {
        self.needs_render = val;
    }
}

/// Drawing row `row` prints one text, the text of that row.
pub proof fn lemma_row_prints_its_text(lines: Seq<Seq<char>>, width: int, row: int)
    ensures
        printed_texts(row_commands(lines, width, row)) == seq![row_text(lines, width, row)],
{
    let start = CommandView::MoveTo(Position { x: 0, y: row as usize });
    let wipe = CommandView::Clear(ClearType::CurrentLine);
    let print = CommandView::Print(row_text(lines, width, row));
    let none = Seq::<CommandView>::empty();
    lemma_printed_texts_push(none, start);
    lemma_printed_texts_push(none.push(start), wipe);
    lemma_printed_texts_push(none.push(start).push(wipe), print);
    lemma_printed_texts_push(none.push(start).push(wipe).push(print), start);
    assert(seq![start, wipe, print] == none.push(start).push(wipe).push(print));
}

/// Drawing `rows` rows prints one text for each row, top to bottom: the
/// text of that row.
pub proof fn lemma_draw_prints_rows(lines: Seq<Seq<char>>, width: int, rows: int)
    requires
        0 <= rows,
    ensures
        printed_texts(draw_commands(lines, width, rows)) == Seq::new(
            rows as nat,
            |row: int| row_text(lines, width, row),
        ),
    decreases rows,
{
    if rows > 0 {
        lemma_draw_prints_rows(lines, width, rows - 1);
        lemma_row_prints_its_text(lines, width, rows - 1);
        lemma_printed_texts_concat(
            draw_commands(lines, width, rows - 1),
            row_commands(lines, width, rows - 1),
        );
    }
}

/// Rendering twice in a row draws once: whatever the view and the two
/// sizes, the view is up to date after the first rendering, the second
/// queues nothing, and it leaves the view as the first left it.
pub proof fn lemma_second_render_is_empty(view: View, first: Size, second: Size)
    ensures
        !view.rendered().needs_render,
        view.rendered().commands(second) == Seq::<CommandView>::empty(),
        view.commands(first) + view.rendered().commands(second) == view.commands(first),
        view.rendered().rendered() == view.rendered(),
{
}

/// Once the view is marked out of date, as a change of the terminal's size
/// marks it, the next rendering draws every row, whether the view was out
/// of date before or not, and prints one text for each row.
pub proof fn lemma_render_after_resize(view: View, size: Size)
    ensures
        view.marked(true).commands(size) == draw_commands(
            view.lines(),
            size.width as int,
            size.height as int,
        ),
        printed_texts(view.marked(true).commands(size)).len() == size.height,
        view.marked(true).rendered() == view.rendered(),
{
    lemma_draw_prints_rows(view.lines(), size.width as int, size.height as int);
}

/// On a terminal with more rows than the buffer has lines, a redraw prints
/// each line, cut to the width, top to bottom, and then a `~` for each of
/// the rows that are left.
pub proof fn lemma_rows_below_buffer(lines: Seq<Seq<char>>, width: int, height: int)
    requires
        lines.len() < height,
    ensures
        printed_texts(draw_commands(lines, width, height)) == Seq::new(
            lines.len(),
            |row: int| clip(lines[row], width),
        ) + Seq::new((height - lines.len()) as nat, |row: int| seq!['~']),
{
    lemma_draw_prints_rows(lines, width, height);
}

/// A line longer than the terminal is wide is drawn as its first `width`
/// characters, and no more: what is cut off goes to no other row.
pub proof fn lemma_long_line_is_cut(lines: Seq<Seq<char>>, width: int, height: int, row: int)
    requires
        0 <= row < height,
        row < lines.len(),
        0 <= width < lines[row].len(),
    ensures
        printed_texts(draw_commands(lines, width, height)).len() == height,
        printed_texts(draw_commands(lines, width, height))[row] == lines[row].take(width),
        printed_texts(draw_commands(lines, width, height))[row].len() == width,
{
    lemma_draw_prints_rows(lines, width, height);
    assert(lines[row].take(0) == Seq::<char>::empty());
}

} // verus!
