//! The line buffer: a file's text as an ordered sequence of lines.

use vstd::prelude::*;
use vstd::string::*;

verus! {

/// Index of the first line feed in `text`, or the length of `text` where it
/// holds none.
pub open spec fn line_end(text: Seq<char>) -> int {
    match text.index_of_first('\n') {
        Some(index) => index,
        None => text.len() as int,
    }
}

/// `line` without its last character where that is a carriage return.
pub open spec fn strip_carriage_return(line: Seq<char>) -> Seq<char> {
    if line.len() > 0 && line.last() == '\r' {
        line.drop_last()
    } else {
        line
    }
}

/// The lines of `text`.
///
/// A line ends at a line feed; the line feed, and a carriage return right
/// before it, belong to no line. What follows the last line feed is a line
/// of its own unless it is empty, so a final line ending adds no line.
pub open spec fn split_text(text: Seq<char>) -> Seq<Seq<char>>
    decreases text.len(),
{
    let end = line_end(text);
    if text.len() == 0 {
        Seq::empty()
    } else if 0 <= end < text.len() {
        seq![strip_carriage_return(text.take(end))] + split_text(text.skip(end + 1))
    } else {
        seq![text]
    }
}

/// The views of a sequence of strings, in the same order.
pub open spec fn line_views(lines: Seq<String>) -> Seq<Seq<char>> {
    Seq::new(lines.len(), |i: int| lines[i]@)
}

/// `line_end(text)` is `end` where no line feed stands before `end` and
/// `end` is either the length of `text` or the place of a line feed.
pub proof fn lemma_line_end(text: Seq<char>, end: int)
    requires
        0 <= end <= text.len(),
        forall|i: int| 0 <= i < end ==> text[i] != '\n',
        end < text.len() ==> text[end] == '\n',
    ensures
        line_end(text) == end,
{
    text.index_of_first_ensures('\n');
    match text.index_of_first('\n') {
        Some(index) => {
            if end == text.len() {
                assert(text[index] == '\n');
            } else if index < end {
                assert(text[index] == '\n');
            } else if end < index {
                assert(text[end] == '\n');
            }
        },
        None => {
            if end < text.len() {
                assert(text.contains(text[end]));
            }
        },
    }
}

/// Text without a line feed is no line at all where it is empty, and one
/// line otherwise.
pub proof fn lemma_split_single(text: Seq<char>)
    requires
        forall|i: int| 0 <= i < text.len() ==> text[i] != '\n',
    ensures
        split_text(text) == if text.len() == 0 {
            Seq::<Seq<char>>::empty()
        } else {
            seq![text]
        },
{
    lemma_line_end(text, text.len() as int);
}

/// Text that starts with `head`, free of line feeds, and a line feed has
/// `head`, less a closing carriage return, as its first line; the other
/// lines are those of what follows the line feed.
pub proof fn lemma_split_first(head: Seq<char>, tail: Seq<char>)
    requires
        forall|i: int| 0 <= i < head.len() ==> head[i] != '\n',
    ensures
        split_text(head + seq!['\n'] + tail) == seq![strip_carriage_return(head)] + split_text(
            tail,
        ),
{
    let text = head + seq!['\n'] + tail;
    let end = head.len() as int;
    lemma_line_end(text, end);
    assert(text.take(end) == head);
    assert(text.skip(end + 1) == tail);
}

/// Appends `c` to `text`.
///
/// Trusted: this is `String::push`, which std documents as appending the
/// given character to the end of the string.
#[verifier::external_body]
fn push_char(text: &mut String, c: char)
    ensures
        final(text)@ == old(text)@.push(c),
{
    text.push(c);
}

/// Splits `contents` into its lines.
pub fn split_lines(contents: &str) -> (lines: Vec<String>)
    ensures
        line_views(lines@) == split_text(contents@),
{
    let mut lines: Vec<String> = Vec::new();
    let mut current = String::new();
    // A carriage return that was read and not yet appended to `current`:
    // it is dropped if a line feed follows, and appended otherwise.
    let mut held: bool = false;
    let ghost text = contents@;
    proof {
        assert(text.skip(0) == text);
        assert(current@ + Seq::<char>::empty() + text == text);
        assert(line_views(lines@) + split_text(text) == split_text(text));
    }
    for c in iter: contents.chars()
        invariant
            iter.seq() == text,
            !held ==> (current@.len() == 0 || current@.last() != '\r'),
            forall|i: int| 0 <= i < current@.len() ==> current@[i] != '\n',
            split_text(text) == line_views(lines@) + split_text(
                current@ + (if held {
                    seq!['\r']
                } else {
                    Seq::empty()
                }) + text.skip(iter.index() as int),
            ),
    {
        let ghost pending = current@ + (if held {
            seq!['\r']
        } else {
            Seq::<char>::empty()
        });
        let ghost rest = text.skip(iter.index() as int);
        let ghost after = text.skip(iter.index() as int + 1);
        assert(rest == seq![c] + after);
        if c == '\n' {
            proof {
                lemma_split_first(pending, after);
                assert(pending + rest == pending + seq!['\n'] + after);
                assert(strip_carriage_return(pending) == current@) by {
                    if held {
                        assert(pending.drop_last() == current@);
                    } else {
                        assert(pending == current@);
                    }
                }
                assert(line_views(lines@.push(current)) == line_views(lines@) + seq![current@]);
            }
            lines.push(current);
            current = String::new();
            held = false;
            assert(current@ + Seq::<char>::empty() + after == after);
        } else {
            if held {
                push_char(&mut current, '\r');
            }
            if c == '\r' {
                held = true;
            } else {
                push_char(&mut current, c);
                held = false;
            }
            assert(current@ + (if held {
                seq!['\r']
            } else {
                Seq::<char>::empty()
            }) + after == pending + rest);
        }
    }
    let ghost pending = current@ + (if held {
        seq!['\r']
    } else {
        Seq::<char>::empty()
    });
    assert(text.skip(text.len() as int) == Seq::<char>::empty());
    assert(pending + Seq::<char>::empty() == pending);
    if held {
        push_char(&mut current, '\r');
    }
    assert(current@ == pending);
    proof {
        lemma_split_single(pending);
    }
    if !current.as_str().is_empty() {
        proof {
            assert(line_views(lines@.push(current)) == line_views(lines@) + seq![current@]);
        }
        lines.push(current);
    } else {
        assert(line_views(lines@) + Seq::<Seq<char>>::empty() == line_views(lines@));
    }
    lines
}

/// What the host found at the path it was asked to open.
#[derive(Debug, PartialEq, Eq)]
pub enum FileProbe {
    /// The path names a directory.
    Directory,
    /// The path could not be examined, or not be read as text; the string
    /// says why.
    Unreadable(String),
    /// The path names a file that holds this text.
    Text(String),
}

/// Why no buffer was loaded.
#[derive(Debug, PartialEq, Eq)]
pub enum LoadError {
    /// The path, kept here, names a directory: showing one is not supported.
    Directory(String),
    /// The file could not be read; the string says why.
    Io(String),
}

/// A [`LoadError`] as a mathematical value.
pub enum LoadErrorView {
    Directory(Seq<char>),
    Io(Seq<char>),
}

impl View for LoadError {
    type V = LoadErrorView;

    open spec fn view(&self) -> LoadErrorView {
        match *self {
            LoadError::Directory(path) => LoadErrorView::Directory(path@),
            LoadError::Io(reason) => LoadErrorView::Io(reason@),
        }
    }
}

/// The one-line message that tells the user of `error`.
pub open spec fn error_message(error: LoadErrorView) -> Seq<char> {
    match error {
        LoadErrorView::Directory(path) => path
            + " is a directory. Logic not yet implemented\r\n"@,
        LoadErrorView::Io(reason) => reason,
    }
}

impl LoadError {
    /// Whether the error is the one for a directory.
    pub fn is_directory(&self) -> (directory: bool)
        ensures
            directory == (self@ is Directory),
    {
        match self {
            LoadError::Directory(_) => true,
            LoadError::Io(_) => false,
        }
    }

    /// The one-line message that tells the user of the error.
    pub fn message(&self) -> (message: String)
        ensures
            message@ == error_message(self@),
    {
        match self {
            LoadError::Directory(path) => String::from_str(path.as_str()).concat(
                " is a directory. Logic not yet implemented\r\n",
            ),
            LoadError::Io(reason) => String::from_str(reason.as_str()),
        }
    }
}

/// The lines of the file on show, first line first.
#[derive(Debug, PartialEq, Eq)]
pub struct Buffer {
    pub lines: Vec<String>,
}

impl View for Buffer {
    type V = Seq<Seq<char>>;

    open spec fn view(&self) -> Seq<Seq<char>> {
        line_views(self.lines@)
    }
}

impl Default for Buffer {
    fn default() -> (buffer: Self)
        ensures
            buffer@ == Seq::<Seq<char>>::empty(),
    {
        Buffer { lines: Vec::new() }
    }
}

impl Buffer {
    /// Makes the buffer for the file `file_name` out of what the host found
    /// there.
    ///
    /// A directory is refused with the error of its own, whatever else the
    /// host says; an unreadable file with the host's reason; a file that
    /// was read yields its lines.
    pub fn load_file(file_name: &str, probe: FileProbe) -> (result: Result<Self, LoadError>)
        ensures
            match probe {
                FileProbe::Directory => result matches Err(error) && error@
                    == LoadErrorView::Directory(file_name@),
                FileProbe::Unreadable(reason) => result matches Err(error) && error@
                    == LoadErrorView::Io(reason@),
                FileProbe::Text(text) => result matches Ok(buffer) && buffer@ == split_text(
                    text@,
                ),
            },
    {
        match probe {
            FileProbe::Directory => Err(LoadError::Directory(String::from_str(file_name))),
            FileProbe::Unreadable(reason) => Err(LoadError::Io(reason)),
            FileProbe::Text(text) => Ok(Buffer { lines: split_lines(text.as_str()) }),
        }
    }
}

/// The characters that end a line: a line feed, behind a carriage return
/// where `carriage_return` holds.
pub open spec fn line_ending(carriage_return: bool) -> Seq<char> {
    if carriage_return {
        seq!['\r', '\n']
    } else {
        seq!['\n']
    }
}

/// The text of a file made of `lines`: behind line `i` stands a line
/// ending, with a carriage return where `crlf[i]` holds; behind the last
/// line it stands only where `terminated` holds.
pub open spec fn file_text(lines: Seq<Seq<char>>, crlf: Seq<bool>, terminated: bool) -> Seq<char>
    decreases lines.len(),
{
    if lines.len() == 0 {
        Seq::empty()
    } else if lines.len() == 1 && !terminated {
        lines[0]
    } else {
        lines[0] + line_ending(crlf[0]) + file_text(lines.skip(1), crlf.skip(1), terminated)
    }
}

/// Splitting gives back the lines a file was written from, in their order
/// and character for character, whether its line endings are line feeds or
/// carriage return and line feed, and whether or not the last line has one.
///
/// The lines hold no line feed. A line that a line ending follows does not
/// end in a carriage return, which would read as part of that ending, and a
/// last line without a line ending is not empty, as such a file is the one
/// without that line.
pub proof fn lemma_split_file_text(lines: Seq<Seq<char>>, crlf: Seq<bool>, terminated: bool)
    requires
        crlf.len() == lines.len(),
        forall|i: int, j: int|
            0 <= i < lines.len() && 0 <= j < lines[i].len() ==> #[trigger] lines[i][j] != '\n',
        forall|i: int|
            0 <= i < lines.len() && (terminated || i + 1 < lines.len()) ==> (#[trigger] lines[i]).len()
                == 0 || lines[i].last() != '\r',
        !terminated && lines.len() > 0 ==> lines.last().len() > 0,
    ensures
        split_text(file_text(lines, crlf, terminated)) == lines,
    decreases lines.len(),
{
    if lines.len() == 0 {
    } else if lines.len() == 1 && !terminated {
        lemma_split_single(lines[0]);
        assert(lines.last() == lines[0]);
    } else {
        let rest = lines.skip(1);
        let tail = file_text(rest, crlf.skip(1), terminated);
        let head = if crlf[0] {
            lines[0].push('\r')
        } else {
            lines[0]
        };
        assert(file_text(lines, crlf, terminated) == head + seq!['\n'] + tail);
        assert(strip_carriage_return(head) == lines[0]) by {
            if crlf[0] {
                assert(head.drop_last() == lines[0]);
            }
        }
        assert forall|i: int, j: int| 0 <= i < rest.len() && 0 <= j < rest[i].len() implies #[trigger] rest[i][j]
            != '\n' by {
            assert(rest[i] == lines[i + 1]);
            assert(lines[i + 1][j] != '\n');
        }
        assert forall|i: int| 0 <= i < rest.len() && (terminated || i + 1 < rest.len()) implies (#[trigger] rest[i]).len()
            == 0 || rest[i].last() != '\r' by {
            assert(rest[i] == lines[i + 1]);
        }
        if rest.len() > 0 {
            assert(rest.last() == lines.last());
        }
        lemma_split_first(head, tail);
        lemma_split_file_text(rest, crlf.skip(1), terminated);
        assert(seq![lines[0]] + rest == lines);
    }
}

} // verus!
