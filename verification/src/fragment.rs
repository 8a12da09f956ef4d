//! Source files as lines, and the overlapping windows of lines that are
//! scored one by one.

use crate::highlight::{highlight, HighlightError, Syntaxes};
use crate::text::{decimal, joined, lines_of, split_lines, to_decimal};
use crate::theme::{SyntectTheme, Theme};
use ratatui::text::Line;
use std::sync::Arc;
use vstd::prelude::*;
use vstd::string::StringExecFns;

verus! {

/// A line of styled text as the terminal library draws it. The library
/// carries such lines from where they are made to where they are drawn and
/// never looks inside.
#[verifier::external_type_specification]
#[verifier::external_body]
pub struct ExLine<'a>(Line<'a>);

/// A line of a file: its text, and the same line ready for display.
#[derive(Debug, Clone)]
pub struct FileLine {
    pub line: String,
    pub highlighted_line: Line<'static>,
}

/// A source file: where it was found and its lines, in order.
#[derive(Debug, Clone)]
pub struct File {
    pub path: String,
    pub content: Vec<FileLine>,
}

/// A window of consecutive lines of one file, from `first_line` to
/// `last_line`, both included. The file is shared by all its fragments.
#[derive(Debug)]
pub struct Fragment {
    first_line: usize,
    last_line: usize,
    file: Arc<File>,
}

/// The first line of the window with the given index.
pub open spec fn window_start(index: int, lines_per_block: int) -> int {
    index * lines_per_block
}

/// The last line of the window with the given index in a file of
/// `line_count` lines: `blocks_per_fragment` blocks further on, or the
/// file's last line where the file ends before that.
pub open spec fn window_end(
    index: int,
    line_count: int,
    lines_per_block: int,
    blocks_per_fragment: int,
) -> int {
    let reach = window_start(index, lines_per_block) + lines_per_block * blocks_per_fragment;
    if reach < line_count - 1 {
        reach
    } else {
        line_count - 1
    }
}

/// The number of windows of a file of `line_count` lines: one for each
/// block, the last of which may be short.
pub open spec fn window_count(line_count: int, lines_per_block: int) -> int {
    (line_count + lines_per_block - 1) / lines_per_block
}

/// The number of lines that the window with the given index has in common
/// with the next one.
pub open spec fn window_overlap(
    index: int,
    line_count: int,
    lines_per_block: int,
    blocks_per_fragment: int,
) -> int {
    window_end(index, line_count, lines_per_block, blocks_per_fragment) - window_start(
        index + 1,
        lines_per_block,
    ) + 1
}

/// Every window of a file lies inside it: it starts at or after the first
/// line, ends at or before the last, and holds at least one line.
pub proof fn windows_lie_inside(
    index: int,
    line_count: int,
    lines_per_block: int,
    blocks_per_fragment: int,
)
    requires
        lines_per_block > 0,
        blocks_per_fragment >= 0,
        0 <= index < window_count(line_count, lines_per_block),
    ensures
        0 <= window_start(index, lines_per_block) <= window_end(
            index,
            line_count,
            lines_per_block,
            blocks_per_fragment,
        ) < line_count,
{
    assert(index * lines_per_block < line_count && index * lines_per_block >= 0
        && lines_per_block * blocks_per_fragment >= 0) by (nonlinear_arith)
        requires
            lines_per_block > 0,
            blocks_per_fragment >= 0,
            0 <= index < (line_count + lines_per_block - 1) / lines_per_block,
    ;
}

/// Each window starts one block after the one before it. Two neighbours
/// share the lines from the later one's first line to the earlier one's last:
/// one line more than `blocks_per_fragment - 1` blocks where the earlier one
/// is not cut short by the end of the file, and what is left of the file
/// where it is. They share exactly `blocks_per_fragment - 1` blocks where the
/// file ends one line after the earlier window's full reach.
pub proof fn neighbours_overlap(
    index: int,
    line_count: int,
    lines_per_block: int,
    blocks_per_fragment: int,
)
    requires
        lines_per_block > 0,
        blocks_per_fragment > 0,
        0 <= index,
        index + 1 < window_count(line_count, lines_per_block),
    ensures
        window_start(index + 1, lines_per_block) == window_start(index, lines_per_block)
            + lines_per_block,
        window_start(index, lines_per_block) + lines_per_block * blocks_per_fragment < line_count
            - 1 ==> window_overlap(index, line_count, lines_per_block, blocks_per_fragment) == (
        blocks_per_fragment - 1) * lines_per_block + 1,
        window_start(index, lines_per_block) + lines_per_block * blocks_per_fragment >= line_count
            - 1 ==> window_overlap(index, line_count, lines_per_block, blocks_per_fragment)
            == line_count - window_start(index + 1, lines_per_block),
        (index + blocks_per_fragment) * lines_per_block == line_count ==> window_overlap(
            index,
            line_count,
            lines_per_block,
            blocks_per_fragment,
        ) == (blocks_per_fragment - 1) * lines_per_block,
{
    assert((index + 1) * lines_per_block == index * lines_per_block + lines_per_block)
        by (nonlinear_arith);
    assert((blocks_per_fragment - 1) * lines_per_block == lines_per_block * blocks_per_fragment
        - lines_per_block) by (nonlinear_arith);
    assert((index + blocks_per_fragment) * lines_per_block == index * lines_per_block
        + lines_per_block * blocks_per_fragment) by (nonlinear_arith);
}

/// Where a window reaches at least one block, every line of the file lies in
/// the window that starts with the line's block.
pub proof fn every_line_is_windowed(
    line: int,
    line_count: int,
    lines_per_block: int,
    blocks_per_fragment: int,
)
    requires
        lines_per_block > 0,
        blocks_per_fragment > 0,
        0 <= line < line_count,
    ensures
        0 <= line / lines_per_block < window_count(line_count, lines_per_block),
        window_start(line / lines_per_block, lines_per_block) <= line <= window_end(
            line / lines_per_block,
            line_count,
            lines_per_block,
            blocks_per_fragment,
        ),
{
    let index = line / lines_per_block;
    assert(0 <= index && index * lines_per_block <= line < index * lines_per_block
        + lines_per_block) by (nonlinear_arith)
        requires
            index == line / lines_per_block,
            lines_per_block > 0,
            0 <= line,
    ;
    assert(index < (line_count + lines_per_block - 1) / lines_per_block) by (nonlinear_arith)
        requires
            index * lines_per_block <= line < line_count,
            lines_per_block > 0,
    ;
    assert(lines_per_block * blocks_per_fragment >= lines_per_block) by (nonlinear_arith)
        requires
            lines_per_block > 0,
            blocks_per_fragment > 0,
    ;
}

/// Whether `file` is an outcome of reading the text `content` found at `path`
/// as a file with the given extension, with the grammars of `syntaxes`.
/// Without a grammar for the extension the outcome is `UnknownSyntax`,
/// whatever the text; with one it is never that. A file that was read has
/// the path, and its lines are the first lines of the text.
pub open spec fn read_with(
    syntaxes: Syntaxes,
    path: String,
    extension: Seq<char>,
    content: Seq<char>,
    file: Result<File, HighlightError>,
) -> bool {
    &&& !syntaxes.grammars().contains(extension) <==> file is Err && file->Err_0
        == HighlightError::UnknownSyntax
    &&& file is Ok ==> {
        let file = file->Ok_0;
        &&& file.path == path
        &&& file.line_count() <= lines_of(content).len()
        &&& line_texts(file.content@) == lines_of(content).take(file.line_count())
    }
}

/// Whether `fragments` is an outcome of cutting the text `content` found at
/// `path` into windows, read as a file with the given extension with the
/// grammars of `syntaxes`. Without a grammar for the extension the outcome
/// is `UnknownSyntax`, whatever the text; with one it is never that. The
/// windows are those of one file, which has the path and the first lines of
/// the text, and there is one for each of its blocks; a text without lines
/// has none.
pub open spec fn cut_with(
    syntaxes: Syntaxes,
    path: String,
    extension: Seq<char>,
    content: Seq<char>,
    lines_per_block: int,
    blocks_per_fragment: int,
    fragments: Result<Vec<Fragment>, HighlightError>,
) -> bool {
    &&& !syntaxes.grammars().contains(extension) <==> fragments is Err && fragments->Err_0
        == HighlightError::UnknownSyntax
    &&& fragments is Ok ==> {
        let fragments = fragments->Ok_0@;
        &&& lines_of(content).len() == 0 ==> fragments.len() == 0
        &&& fragments.len() > 0 ==> {
            let file = fragments[0].file();
            &&& file.path == path
            &&& file.line_count() <= lines_of(content).len()
            &&& line_texts(file.content@) == lines_of(content).take(file.line_count())
            &&& fragments.len() == window_count(file.line_count(), lines_per_block)
        }
        &&& forall|i: int|
            0 <= i < fragments.len() ==> {
                let fragment = #[trigger] fragments[i];
                &&& fragment.file() == fragments[0].file()
                &&& fragment.first_line() == window_start(i, lines_per_block)
                &&& fragment.last_line() == window_end(
                    i,
                    fragment.file().line_count(),
                    lines_per_block,
                    blocks_per_fragment,
                )
            }
    }
}

/// The texts of `lines`.
pub open spec fn line_texts(lines: Seq<FileLine>) -> Seq<Seq<char>> {
    lines.map_values(|l: FileLine| l.line@)
}

/// The display forms of `lines`.
pub open spec fn line_displays(lines: Seq<FileLine>) -> Seq<Line<'static>> {
    lines.map_values(|l: FileLine| l.highlighted_line)
}

/// `Line::clone` copies a line: the copy equals the line.
pub assume_specification<'a>[ <Line<'a> as Clone>::clone ](line: &Line<'a>) -> (copy: Line<'a>)
    ensures
        copy == *line,
;

/// Another handle on the same file, by `Arc::clone`: no line is copied.
#[verifier::external_body]
fn share(file: &Arc<File>) -> (handle: Arc<File>)
    ensures
        handle == *file,
{
    Arc::clone(file)
}

impl File {
    /// Pairs the lines of `content` with their display forms, in order.
    /// Where one of the two runs out before the other, the file ends there.
    pub fn new(path: String, content: &str, highlighted_lines: Vec<Line<'static>>) -> (file: File)
        ensures
            file.path == path,
            file.content@.len() == if lines_of(content@).len() <= highlighted_lines@.len() {
                lines_of(content@).len()
            } else {
                highlighted_lines@.len()
            },
            line_texts(file.content@) == lines_of(content@).take(file.content@.len() as int),
            line_displays(file.content@) == highlighted_lines@.take(file.content@.len() as int),
    {
        let mut lines = split_lines(content);
        let mut highlighted_lines = highlighted_lines;
        let ghost texts = lines@;
        let ghost displays = highlighted_lines@;
        if lines.len() > highlighted_lines.len() {
            lines.truncate(highlighted_lines.len());
        } else {
            highlighted_lines.truncate(lines.len());
        }
        let ghost count = lines@.len() as int;
        // The pairs are taken from the ends of the two lists, last line first,
        // and then put back into the order of the file.
        let mut merged: Vec<FileLine> = Vec::new();
        while lines.len() > 0
            invariant
                lines@.len() == highlighted_lines@.len(),
                merged@.len() + lines@.len() == count,
                forall|i: int|
                    0 <= i < merged@.len() ==> (#[trigger] merged@[i]).line == texts[count - 1
                        - i] && merged@[i].highlighted_line == displays[count - 1 - i],
                lines@ == texts.take(lines@.len() as int),
                highlighted_lines@ == displays.take(lines@.len() as int),
                count <= texts.len(),
                count <= displays.len(),
            decreases lines@.len(),
        {
            let line = lines.pop().unwrap();
            let highlighted_line = highlighted_lines.pop().unwrap();
            merged.push(FileLine { line, highlighted_line });
        }
        let mut content_lines: Vec<FileLine> = Vec::new();
        while merged.len() > 0
            invariant
                merged@.len() + content_lines@.len() == count,
                forall|i: int|
                    0 <= i < merged@.len() ==> (#[trigger] merged@[i]).line == texts[count - 1
                        - i] && merged@[i].highlighted_line == displays[count - 1 - i],
                forall|i: int|
                    0 <= i < content_lines@.len() ==> (#[trigger] content_lines@[i]).line
                        == texts[i] && content_lines@[i].highlighted_line == displays[i],
                count <= texts.len(),
                count <= displays.len(),
            decreases merged@.len(),
        {
            let line = merged.pop().unwrap();
            content_lines.push(line);
        }
        File { path, content: content_lines }
    }

    /// The file at `path` with the text `content`, its lines highlighted in
    /// the colours of `theme` as a file with the given extension, by the
    /// grammars of `syntaxes`. The file holds as many lines as were
    /// highlighted, and their texts are the first lines of `content`.
    pub fn read(
        syntaxes: &Syntaxes,
        path: String,
        extension: &str,
        content: &str,
        theme: &SyntectTheme,
    ) -> (file: Result<File, HighlightError>)
        ensures
            read_with(*syntaxes, path, extension@, content@, file),
    {
        match highlight(syntaxes, content, extension, theme) {
            Ok(highlighted_lines) => Ok(File::new(path, content, highlighted_lines)),
            Err(error) => Err(error),
        }
    }

    /// The number of lines.
    pub open spec fn line_count(&self) -> int {
        self.content@.len() as int
    }

    /// Cuts the file into overlapping windows. A window starts at every
    /// `lines_per_block`-th line and reaches `blocks_per_fragment` blocks
    /// beyond its first line, or to the end of the file. An empty file has
    /// no window.
    pub fn into_fragments(self, lines_per_block: usize, blocks_per_fragment: usize) -> (fragments:
        Vec<Fragment>)
        requires
            lines_per_block > 0,
        ensures
            fragments@.len() == window_count(self.line_count(), lines_per_block as int),
            forall|i: int|
                0 <= i < fragments@.len() ==> {
                    let fragment = #[trigger] fragments@[i];
                    &&& fragment.file() == self
                    &&& fragment.first_line() == window_start(i, lines_per_block as int)
                    &&& fragment.last_line() == window_end(
                        i,
                        self.line_count(),
                        lines_per_block as int,
                        blocks_per_fragment as int,
                    )
                    &&& 0 <= fragment.first_line() <= fragment.last_line() < self.line_count()
                },
    {
        let ghost whole = self;
        let num_lines = self.content.len();
        let file = Arc::new(self);
        let span = lines_per_block.checked_mul(blocks_per_fragment);
        let mut fragments: Vec<Fragment> = Vec::new();
        let mut first_line: usize = 0;
        while first_line < num_lines
            invariant_except_break
                first_line == window_start(fragments@.len() as int, lines_per_block as int),
            invariant
                lines_per_block > 0,
                *file == whole,
                num_lines == whole.line_count(),
                fragments@.len() == 0 || window_start(
                    fragments@.len() - 1,
                    lines_per_block as int,
                ) < num_lines,
                match span {
                    Some(product) => product == lines_per_block * blocks_per_fragment,
                    None => lines_per_block * blocks_per_fragment > usize::MAX,
                },
                forall|i: int|
                    0 <= i < fragments@.len() ==> {
                        let fragment = #[trigger] fragments@[i];
                        &&& fragment.file() == whole
                        &&& fragment.first_line() == window_start(i, lines_per_block as int)
                        &&& fragment.last_line() == window_end(
                            i,
                            num_lines as int,
                            lines_per_block as int,
                            blocks_per_fragment as int,
                        )
                        &&& 0 <= fragment.first_line() <= fragment.last_line() < num_lines
                    },
            ensures
                window_start(fragments@.len() as int, lines_per_block as int) >= num_lines,
            decreases
                    if first_line < num_lines {
                        num_lines - first_line
                    } else {
                        0
                    },
        {
            let reach = match span {
                Some(product) => first_line.checked_add(product),
                None => None,
            };
            let last_line = match reach {
                Some(reach) => if reach < num_lines - 1 {
                    reach
                } else {
                    num_lines - 1
                },
                None => num_lines - 1,
            };
            let ghost index = fragments@.len() as int;
            assert((index + 1) * lines_per_block == index * lines_per_block + lines_per_block)
                by (nonlinear_arith);
            fragments.push(Fragment { first_line, last_line, file: share(&file) });
            match first_line.checked_add(lines_per_block) {
                Some(next) => {
                    first_line = next;
                },
                None => {
                    break ;
                },
            }
        }
        proof {
            let count = fragments@.len() as int;
            let n = num_lines as int;
            let block = lines_per_block as int;
            if count > 0 {
                assert((count - 1) * block == count * block - block) by (nonlinear_arith);
            }
            assert(count == (n + block - 1) / block) by (nonlinear_arith)
                requires
                    block > 0,
                    count >= 0,
                    n >= 0,
                    count * block >= n,
                    count == 0 || count * block - block < n,
            ;
        }
        fragments
    }
}

impl Fragment {
    #[verifier::type_invariant]
    spec fn holds_lines(self) -> bool {
        self.first_line <= self.last_line < self.file.content@.len()
    }

    /// The index of the first line of the window.
    pub closed spec fn first_line(&self) -> int {
        self.first_line as int
    }

    /// The index of the last line of the window.
    pub closed spec fn last_line(&self) -> int {
        self.last_line as int
    }

    /// The file that the window is cut from.
    pub closed spec fn file(&self) -> File {
        *self.file
    }

    /// The lines of the window, in order.
    pub open spec fn lines(&self) -> Seq<FileLine> {
        self.file().content@.subrange(self.first_line(), self.last_line() + 1)
    }

    /// The text that names the window: the file's path, a colon, and the
    /// index of the first line.
    pub open spec fn spec_location(&self) -> Seq<char> {
        self.file().path@ + seq![':'] + decimal(self.first_line() as nat)
    }

    /// The indices of the first and the last line of the window.
    pub fn line_range(&self) -> (range: (usize, usize))
        ensures
            range.0 == self.first_line(),
            range.1 == self.last_line(),
            range.0 <= range.1 < self.file().line_count(),
    {
        proof {
            use_type_invariant(self);
        }
        (self.first_line, self.last_line)
    }

    /// The text of the window: its lines, with a line feed between each two.
    pub fn content(&self) -> (text: String)
        ensures
            text@ == joined(line_texts(self.lines())),
    {
        proof {
            use_type_invariant(self);
        }
        let mut text = String::new();
        let mut index = self.first_line;
        let count = self.file.content.len();
        let ghost texts = line_texts(self.lines());
        while index <= self.last_line
            invariant
                self.first_line <= index <= self.last_line + 1,
                self.last_line < count == self.file.content@.len(),
                texts == line_texts(self.lines()),
                text@ == joined(texts.take(index - self.first_line)),
            decreases self.last_line + 1 - index,
        {
            let ghost done = texts.take(index - self.first_line);
            let ghost next = texts.take(index + 1 - self.first_line);
            assert(next.drop_last() == done);
            if index > self.first_line {
                proof {
                    reveal_strlit("\n");
                }
                text.append("\n");
            }
            text.append(self.file.content[index].line.as_str());
            index = index + 1;
        }
        assert(texts.take(texts.len() as int) == texts);
        text
    }

    /// The text that names the window.
    pub fn location(&self) -> (text: String)
        ensures
            text@ == self.spec_location(),
    {
        let mut text = self.file.path.clone();
        proof {
            reveal_strlit(":");
        }
        text.append(":");
        text.append(to_decimal(self.first_line as u128).as_str());
        text
    }

    /// The lines of the window in their display form.
    pub fn highlighted_content(&self) -> (lines: Vec<Line<'static>>)
        ensures
            lines@ == line_displays(self.lines()),
    {
        proof {
            use_type_invariant(self);
        }
        let mut lines: Vec<Line<'static>> = Vec::new();
        let mut index = self.first_line;
        let count = self.file.content.len();
        while index <= self.last_line
            invariant
                self.first_line <= index <= self.last_line + 1,
                self.last_line < count == self.file.content@.len(),
                lines@ == line_displays(self.lines()).take(index - self.first_line),
            decreases self.last_line + 1 - index,
        {
            lines.push(self.file.content[index].highlighted_line.clone());
            index = index + 1;
        }
        lines
    }
}

impl Clone for Fragment {
    /// A second handle on the same window of the same file.
    fn clone(&self) -> (copy: Fragment)
        ensures
            copy == *self,
    {
        proof {
            use_type_invariant(self);
        }
        Fragment {
            first_line: self.first_line,
            last_line: self.last_line,
            file: share(&self.file),
        }
    }
}

/// Cuts the file at `path`, whose text is `content`, into overlapping
/// windows, with its lines highlighted in the colours of `theme` as a file
/// with the given extension, by the grammars of `syntaxes`. The file has as
/// many lines as the highlighter could style.
pub fn file_to_fragments(
    syntaxes: &Syntaxes,
    path: String,
    extension: &str,
    content: &str,
    lines_per_block: usize,
    blocks_per_fragment: usize,
    theme: Theme,
) -> (fragments: Result<Vec<Fragment>, HighlightError>)
    requires
        lines_per_block > 0,
    ensures
        cut_with(
            *syntaxes,
            path,
            extension@,
            content@,
            lines_per_block as int,
            blocks_per_fragment as int,
            fragments,
        ),
{
    let scheme = theme.syntect_theme();
    match File::read(syntaxes, path, extension, content, &scheme) {
        Ok(file) => {
            proof {
                let block = lines_per_block as int;
                assert((block - 1) / block == 0) by (nonlinear_arith)
                    requires
                        block > 0,
                ;
            }
            Ok(file.into_fragments(lines_per_block, blocks_per_fragment))
        },
        Err(error) => Err(error),
    }
}

} // verus!
