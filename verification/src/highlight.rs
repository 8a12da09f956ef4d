//! Source text in colours: the lines of a file as the syntax highlighter
//! styles them.

use crate::text::{first_line_end, is_line_end, first_line_end_is, push_char};
use crate::theme::{SyntectColor, SyntectTheme};
use ratatui::text::{Line, Span};
use std::str::FromStr;
use syntect::easy::HighlightLines;
use syntect::highlighting::Color as Rgba;
use syntect::highlighting::Theme as ColorScheme;
use syntect::highlighting::{ScopeSelectors, Style, StyleModifier, ThemeItem};
use syntect::parsing::{SyntaxReference, SyntaxSet};
use vstd::prelude::*;

verus! {

/// The highlighter's grammars, one for each language it knows.
#[verifier::external_type_specification]
#[verifier::external_body]
pub struct ExSyntaxSet(SyntaxSet);

/// The highlighter's grammar of one language.
#[verifier::external_type_specification]
#[verifier::external_body]
pub struct ExSyntaxReference(SyntaxReference);

/// The highlighter's colour scheme.
#[verifier::external_type_specification]
#[verifier::external_body]
pub struct ExColorScheme(ColorScheme);

/// The highlighter in the middle of a text: it knows what the lines so far
/// have opened and not closed.
#[verifier::external_type_specification]
#[verifier::external_body]
pub struct ExHighlightLines<'a>(HighlightLines<'a>);

/// The colours and the font style that the highlighter gives to a piece of
/// text.
#[verifier::external_type_specification]
#[verifier::external_body]
pub struct ExStyle(Style);

/// A piece of styled text as the terminal library draws it.
#[verifier::external_type_specification]
#[verifier::external_body]
pub struct ExSpan<'a>(Span<'a>);

/// Why a text was not highlighted.
#[derive(Debug, Clone, Copy, PartialEq, Eq, Structural)]
pub enum HighlightError {
    /// The highlighter has no grammar for files with this extension.
    UnknownSyntax,
    /// The highlighter does not understand the scopes of the scheme.
    InvalidScopes,
}

/// The pieces of `s` that end with a line feed each, and what follows the
/// last line feed, unless it is empty.
pub open spec fn with_endings(s: Seq<char>) -> Seq<Seq<char>>
    decreases s.len(),
{
    let end = first_line_end(s) as int;
    if s.len() == 0 {
        Seq::empty()
    } else if end >= s.len() {
        seq![s]
    } else {
        seq![s.subrange(0, end + 1)] + with_endings(s.subrange(end + 1, s.len() as int))
    }
}

/// The views of the strings in `pieces`.
pub open spec fn piece_views(pieces: Seq<String>) -> Seq<Seq<char>> {
    pieces.map_values(|piece: String| piece@)
}

/// The grammars that come with the highlighter. Each of them can be
/// started, and its patterns can be used: they were tested when the set was
/// made. No other set gets into a value of this type.
pub struct Syntaxes {
    set: SyntaxSet,
}

/// One grammar of the set that comes with the highlighter.
struct Grammar<'a> {
    syntax: &'a SyntaxReference,
}

/// The extensions that a set of grammars answers to: those for which
/// `SyntaxSet::find_syntax_by_extension` finds a grammar in the set. The
/// search reads nothing but the set and the extension, and takes upper and
/// lower case letters of the extension for the same.
pub uninterp spec fn extensions_of(syntaxes: SyntaxSet) -> Set<Seq<char>>;

/// The grammars that come with the highlighter, by
/// `SyntaxSet::load_defaults_newlines`.
#[verifier::external_body]
fn load_syntaxes() -> SyntaxSet {
    SyntaxSet::load_defaults_newlines()
}

/// The grammar for files with the given extension, by
/// `SyntaxSet::find_syntax_by_extension`: there is one exactly when the set
/// answers to the extension.
#[verifier::external_body]
fn find_syntax<'a>(syntaxes: &'a Syntaxes, extension: &str) -> (found: Option<Grammar<'a>>)
    ensures
        found is Some <==> extensions_of(syntaxes.set).contains(extension@),
{
    syntaxes.set.find_syntax_by_extension(extension).map(|syntax| Grammar { syntax })
}

/// The scheme in the highlighter's own form. The scopes are read by
/// `ScopeSelectors::from_str`; `None` when it refuses them.
#[verifier::external_body]
fn build_theme(theme: &SyntectTheme) -> Option<ColorScheme> {
    let color = |c: &SyntectColor| Some(Rgba { r: c.r, g: c.g, b: c.b, a: c.a });
    let scope = ScopeSelectors::from_str(&theme.scope).ok()?;
    let style = StyleModifier { foreground: color(&theme.scope_foreground), ..Default::default() };
    let mut scheme = ColorScheme::default();
    scheme.name = Some(theme.name.clone());
    scheme.author = Some(theme.author.clone());
    scheme.settings.background = color(&theme.background);
    scheme.settings.foreground = color(&theme.foreground);
    scheme.settings.gutter_foreground = color(&theme.gutter_foreground);
    scheme.scopes.push(ThemeItem { scope, style });
    Some(scheme)
}

/// A highlighter at the start of a text, by `HighlightLines::new`. That
/// starts the grammar, which a grammar of the highlighter's own set allows.
#[verifier::external_body]
fn start_highlighting<'a>(grammar: &Grammar<'_>, theme: &'a ColorScheme) -> HighlightLines<'a> {
    HighlightLines::new(grammar.syntax, theme)
}

/// The pieces of the next line with their styles, by
/// `HighlightLines::highlight_line`; `None` when the grammar fails on the
/// line. The patterns that it uses are those of the highlighter's own set.
#[verifier::external_body]
fn highlight_line(
    highlighter: &mut HighlightLines<'_>,
    line: &str,
    syntaxes: &Syntaxes,
) -> Option<Vec<(Style, String)>> {
    let pieces = highlighter.highlight_line(line, &syntaxes.set).ok()?;
    Some(pieces.into_iter().map(|(style, text)| (style, text.to_owned())).collect())
}

/// A styled piece in the terminal library's form, by `syntect_tui::into_span`;
/// `None` when the font style has no counterpart there.
#[verifier::external_body]
fn into_span(piece: &(Style, String)) -> Option<Span<'static>> {
    let span = syntect_tui::into_span((piece.0, piece.1.as_str())).ok()?;
    Some(Span::styled(span.content.into_owned(), span.style))
}

/// The line made of `spans`, by `Line::from_iter`.
#[verifier::external_body]
fn line_of(spans: Vec<Span<'static>>) -> Line<'static> {
    Line::from_iter(spans)
}

/// Splits `content` after every line feed.
pub fn split_with_endings(content: &str) -> (pieces: Vec<String>)
    ensures
        piece_views(pieces@) == with_endings(content@),
{
    let mut pieces: Vec<String> = Vec::new();
    let mut current = String::new();
    let ghost mut start: int = 0;
    assert(content@.subrange(0, content@.len() as int) == content@);
    for c in it: content.chars()
        invariant
            it.seq() == content@,
            0 <= start <= it.index() <= content@.len(),
            forall|i: int| start <= i < it.index() ==> !is_line_end(#[trigger] content@[i]),
            content@.subrange(start, it.index() as int) == current@,
            with_endings(content@) == piece_views(pieces@) + with_endings(
                content@.subrange(start, content@.len() as int),
            ),
    {
        let ghost at = it.index() as int;
        let ghost rest = content@.subrange(start, content@.len() as int);
        assert(content@.subrange(start, at + 1) == content@.subrange(start, at).push(c));
        push_char(&mut current, c);
        if c == '\n' {
            proof {
                first_line_end_is(rest, at - start);
                assert(rest.subrange(0, at - start + 1) == content@.subrange(start, at + 1));
                assert(rest.subrange(at - start + 1, rest.len() as int) == content@.subrange(
                    at + 1,
                    content@.len() as int,
                ));
                start = at + 1;
            }
            pieces.push(current);
            current = String::new();
        }
    }
    let ghost rest = content@.subrange(start, content@.len() as int);
    if !current.as_str().is_empty() {
        proof {
            first_line_end_is(rest, rest.len() as int);
        }
        pieces.push(current);
    }
    pieces
}

/// The outcomes that are not `None`, in their order.
pub open spec fn somes<T>(outcomes: Seq<Option<T>>) -> Seq<T>
    decreases outcomes.len(),
{
    if outcomes.len() == 0 {
        Seq::empty()
    } else {
        let before = somes(outcomes.drop_last());
        match outcomes.last() {
            Some(item) => before.push(item),
            None => before,
        }
    }
}

/// There are no more outcomes that are not `None` than there are outcomes,
/// and as many where none is `None`.
pub proof fn somes_are_no_more<T>(outcomes: Seq<Option<T>>)
    ensures
        somes(outcomes).len() <= outcomes.len(),
        (forall|i: int| 0 <= i < outcomes.len() ==> outcomes[i] is Some) ==> somes(outcomes).len()
            == outcomes.len(),
    decreases outcomes.len(),
{
    if outcomes.len() > 0 {
        somes_are_no_more(outcomes.drop_last());
        assert(forall|i: int|
            0 <= i < outcomes.len() - 1 ==> outcomes.drop_last()[i] == outcomes[i]);
    }
}

/// What is left of `outcomes` when every `None` is left out.
pub fn kept<T>(outcomes: Vec<Option<T>>) -> (items: Vec<T>)
    ensures
        items@ == somes(outcomes@),
{
    let mut items: Vec<T> = Vec::new();
    for outcome in it: outcomes
        invariant
            items@ == somes(it.seq().take(it.index() as int)),
            it.seq() == outcomes@,
    {
        assert(it.seq().take(it.index() + 1).drop_last() == it.seq().take(it.index() as int));
        if let Some(item) = outcome {
            items.push(item);
        }
    }
    assert(outcomes@.take(outcomes@.len() as int) == outcomes@);
    items
}

impl Syntaxes {
    /// The extensions that the grammars answer to, upper and lower case
    /// letters taken for the same.
    pub closed spec fn grammars(&self) -> Set<Seq<char>> {
        extensions_of(self.set)
    }

    /// The grammars that come with the highlighter.
    pub fn load() -> (syntaxes: Syntaxes) {
        Syntaxes { set: load_syntaxes() }
    }

    /// Whether there is a grammar for files with the given extension.
    pub fn knows(&self, extension: &str) -> (known: bool)
        ensures
            known == self.grammars().contains(extension@),
    {
        find_syntax(self, extension).is_some()
    }
}

/// Whether `outcomes` is what came of highlighting `content` line by line as
/// a file with the given extension, with the grammars of `syntaxes`. Without
/// a grammar for the extension it is `UnknownSyntax`, whatever the text and
/// the scheme; with one it is never that. There is one outcome for every
/// line of the text.
pub open spec fn outcome_per_line<T>(
    syntaxes: Syntaxes,
    content: Seq<char>,
    extension: Seq<char>,
    outcomes: Result<Vec<Option<T>>, HighlightError>,
) -> bool {
    &&& !syntaxes.grammars().contains(extension) <==> outcomes is Err && outcomes->Err_0
        == HighlightError::UnknownSyntax
    &&& outcomes is Ok ==> outcomes->Ok_0@.len() == with_endings(content).len()
}

/// Whether `lines` is an outcome of highlighting `content` as a file with the
/// given extension, with the grammars of `syntaxes`. Without a grammar for
/// the extension the outcome is `UnknownSyntax`, whatever the text and the
/// scheme; with one it is never that. No text has more highlighted lines
/// than it has lines.
pub open spec fn highlighted(
    syntaxes: Syntaxes,
    content: Seq<char>,
    extension: Seq<char>,
    lines: Result<Vec<Line<'static>>, HighlightError>,
) -> bool {
    &&& !syntaxes.grammars().contains(extension) <==> lines is Err && lines->Err_0
        == HighlightError::UnknownSyntax
    &&& lines is Ok ==> lines->Ok_0@.len() <= with_endings(content).len()
}

/// The styled pieces of a line in the terminal's form, one outcome for each:
/// `None` for a piece whose font style the terminal cannot show.
fn spans_of(styled: &Vec<(Style, String)>) -> (outcomes: Vec<Option<Span<'static>>>)
    ensures
        outcomes@.len() == styled@.len(),
{
    let mut outcomes: Vec<Option<Span<'static>>> = Vec::new();
    let mut at: usize = 0;
    while at < styled.len()
        invariant
            at <= styled@.len(),
            outcomes@.len() == at,
        decreases styled@.len() - at,
    {
        outcomes.push(into_span(&styled[at]));
        at = at + 1;
    }
    outcomes
}

/// The lines of `content` in the colours of `theme`, highlighted as a file
/// with the given extension, one outcome for every line: the line made of
/// the pieces that the terminal can show, or `None` where the grammar fails
/// on the line. The highlighter reads the lines in their order.
pub fn highlight_lines(
    syntaxes: &Syntaxes,
    content: &str,
    extension: &str,
    theme: &SyntectTheme,
) -> (outcomes: Result<Vec<Option<Line<'static>>>, HighlightError>)
    ensures
        outcome_per_line(*syntaxes, content@, extension@, outcomes),
{
    let grammar = match find_syntax(syntaxes, extension) {
        Some(grammar) => grammar,
        None => {
            return Err(HighlightError::UnknownSyntax);
        },
    };
    let scheme = match build_theme(theme) {
        Some(scheme) => scheme,
        None => {
            return Err(HighlightError::InvalidScopes);
        },
    };
    let mut highlighter = start_highlighting(&grammar, &scheme);
    let pieces = split_with_endings(content);
    let mut outcomes: Vec<Option<Line<'static>>> = Vec::new();
    let mut index: usize = 0;
    while index < pieces.len()
        invariant
            index <= pieces@.len(),
            outcomes@.len() == index,
        decreases pieces@.len() - index,
    {
        let outcome = match highlight_line(&mut highlighter, pieces[index].as_str(), syntaxes) {
            Some(styled) => Some(line_of(kept(spans_of(&styled)))),
            None => None,
        };
        outcomes.push(outcome);
        index = index + 1;
    }
    assert(piece_views(pieces@).len() == pieces@.len());
    Ok(outcomes)
}

/// The lines of `content` in the colours of `theme`, highlighted as a file
/// with the given extension by the grammars of `syntaxes`. A line on which
/// the grammar fails is left out.
pub fn highlight(syntaxes: &Syntaxes, content: &str, extension: &str, theme: &SyntectTheme) -> (lines:
    Result<Vec<Line<'static>>, HighlightError>)
    ensures
        highlighted(*syntaxes, content@, extension@, lines),
{
    match highlight_lines(syntaxes, content, extension, theme) {
        Ok(outcomes) => {
            proof {
                somes_are_no_more(outcomes@);
            }
            Ok(kept(outcomes))
        },
        Err(error) => Err(error),
    }
}

} // verus!
