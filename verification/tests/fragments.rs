use grepowski::fragment::{file_to_fragments, File, Fragment};
use grepowski::highlight::{
    highlight, highlight_lines, kept, split_with_endings, HighlightError, Syntaxes,
};
use grepowski::text::{split_lines, to_decimal};
use grepowski::theme::Theme;
use ratatui::style::{Color, Style};
use ratatui::text::{Line, Span};

fn plain(lines: &[&'static str]) -> Vec<Line<'static>> {
    lines.iter().map(|line| Line::from(*line)).collect()
}

fn numbered(count: usize) -> (String, Vec<Line<'static>>) {
    let mut content = String::new();
    let mut lines = Vec::new();
    for i in 0..count {
        content.push_str(&format!("line {}\n", i));
        lines.push(Line::from(format!("line {}", i)));
    }
    (content, lines)
}

fn windows(count: usize, lines_per_block: usize, blocks_per_fragment: usize) -> Vec<Fragment> {
    let (content, lines) = numbered(count);
    File::new("numbered.txt".to_string(), &content, lines)
        .into_fragments(lines_per_block, blocks_per_fragment)
}

#[test]
fn file_to_fragments_splits_content() {
    let theme = Theme::synthwave();
    let content = "fn one() {}\nfn two() {}\nfn three() {}\n";

    let syntaxes = Syntaxes::load();
    let fragments =
        file_to_fragments(&syntaxes, "sample.rs".to_string(), "rs", content, 2, 1, theme)
            .expect("a file that can be highlighted");

    assert_eq!(fragments.len(), 2);
    assert_eq!(
        fragments[0].content(),
        "fn one() {}\nfn two() {}\nfn three() {}"
    );
    assert_eq!(fragments[1].content(), "fn three() {}");
}

#[test]
fn three_line_file_has_two_windows() {
    let content = "fn one() {}\nfn two() {}\nfn three() {}";
    let highlighted = plain(&["fn one() {}", "fn two() {}", "fn three() {}"]);
    let fragments = File::new("sample.rs".to_string(), content, highlighted).into_fragments(2, 1);
    assert_eq!(fragments.len(), 2);
    assert_eq!(fragments[0].line_range(), (0, 2));
    assert_eq!(fragments[1].line_range(), (2, 2));
    assert_eq!(fragments[0].location(), "sample.rs:0");
    assert_eq!(fragments[1].location(), "sample.rs:2");
    assert_eq!(fragments[1].highlighted_content(), plain(&["fn three() {}"]));
}

#[test]
fn windows_lie_inside_the_file() {
    for count in 0..40usize {
        for lines_per_block in 1..8usize {
            for blocks_per_fragment in 0..5usize {
                let fragments = windows(count, lines_per_block, blocks_per_fragment);
                assert_eq!(
                    fragments.len(),
                    (count + lines_per_block - 1) / lines_per_block
                );
                for (index, fragment) in fragments.iter().enumerate() {
                    let (first, last) = fragment.line_range();
                    assert_eq!(first, index * lines_per_block);
                    assert_eq!(
                        last,
                        std::cmp::min(first + lines_per_block * blocks_per_fragment, count - 1)
                    );
                    assert!(first <= last && last < count);
                }
            }
        }
    }
}

#[test]
fn neighbouring_windows_overlap() {
    // Ten lines, blocks of two, two blocks to a window: windows that are not
    // cut short share one block and one line.
    let fragments = windows(10, 2, 2);
    assert_eq!(fragments.len(), 5);
    assert_eq!(fragments[0].line_range(), (0, 4));
    assert_eq!(fragments[1].line_range(), (2, 6));
    assert_eq!(fragments[2].line_range(), (4, 8));
    // The file ends one line after the reach of this window: it shares
    // exactly one block with the next.
    assert_eq!(fragments[3].line_range(), (6, 9));
    assert_eq!(fragments[4].line_range(), (8, 9));
    let shared = |a: &Fragment, b: &Fragment| a.line_range().1 + 1 - b.line_range().0;
    assert_eq!(shared(&fragments[0], &fragments[1]), 3);
    assert_eq!(shared(&fragments[3], &fragments[4]), 2);
}

#[test]
fn short_file_is_one_window() {
    let fragments = windows(3, 10, 3);
    assert_eq!(fragments.len(), 1);
    assert_eq!(fragments[0].line_range(), (0, 2));
    assert_eq!(fragments[0].content(), "line 0\nline 1\nline 2");
}

#[test]
fn empty_file_has_no_window() {
    assert_eq!(windows(0, 10, 3).len(), 0);
    let fragments = file_to_fragments(
        &Syntaxes::load(),
        "empty.rs".to_string(),
        "rs",
        "",
        1,
        1,
        Theme::accessibility(),
    )
    .expect("a file that can be highlighted");
    assert!(fragments.is_empty());
}

#[test]
fn huge_blocks_do_not_overflow() {
    let fragments = windows(5, usize::MAX, usize::MAX);
    assert_eq!(fragments.len(), 1);
    assert_eq!(fragments[0].line_range(), (0, 4));
    let fragments = windows(5, 2, usize::MAX);
    assert_eq!(fragments.len(), 3);
    assert_eq!(fragments[2].line_range(), (4, 4));
}

#[test]
fn file_ends_with_the_shorter_of_text_and_display() {
    let file = File::new(
        "a.rs".to_string(),
        "one\ntwo\nthree\n",
        plain(&["ONE", "TWO"]),
    );
    assert_eq!(file.content.len(), 2);
    assert_eq!(file.content[0].line, "one");
    assert_eq!(file.content[1].line, "two");
    assert_eq!(file.content[1].highlighted_line, Line::from("TWO"));
    let file = File::new("a.rs".to_string(), "one\n", plain(&["ONE", "TWO"]));
    assert_eq!(file.content.len(), 1);
    assert_eq!(file.path, "a.rs");
}

#[test]
fn fragments_share_their_file() {
    let fragments = windows(6, 2, 1);
    let copy = fragments[1].clone();
    assert_eq!(copy.line_range(), fragments[1].line_range());
    assert_eq!(copy.content(), fragments[1].content());
    assert_eq!(copy.location(), "numbered.txt:2");
}

#[test]
fn lines_are_split_as_std_splits_them() {
    let samples = [
        "",
        "\n",
        "\n\n",
        "a",
        "a\n",
        "a\nb",
        "a\r\nb\r\n",
        "a\rb\n",
        "a\r",
        "\r",
        "\r\n",
        "\r\r\n",
        "a\r\r\nb",
        "foo\nbar\n\r\nbaz\r",
        "\nfoo\r\nbar\n\nbaz\r",
        "héllo\nwörld\r\n→\n",
        "one\n\ntwo\n\n\n",
    ];
    for sample in samples {
        let expected: Vec<String> = sample.lines().map(|line| line.to_string()).collect();
        assert_eq!(split_lines(sample), expected, "for {:?}", sample);
    }
}

#[test]
fn numbers_are_written_in_decimal() {
    assert_eq!(to_decimal(0), "0");
    assert_eq!(to_decimal(7), "7");
    assert_eq!(to_decimal(10), "10");
    assert_eq!(to_decimal(1234567890), "1234567890");
    assert_eq!(to_decimal(u128::MAX), u128::MAX.to_string());
    for n in 0..2000u128 {
        assert_eq!(to_decimal(n), n.to_string());
    }
}

fn rgb(r: u8, g: u8, b: u8) -> Color {
    Color::Rgb(r, g, b)
}

fn styled(text: &'static str, foreground: Color, background: Color) -> Span<'static> {
    Span::styled(
        text,
        Style::default()
            .fg(foreground)
            .bg(background)
            .underline_color(foreground),
    )
}

#[test]
fn source_text_is_highlighted_in_the_palette() {
    let theme = Theme::synthwave();
    let lines = highlight(
        &Syntaxes::load(),
        "let x = 1;\n// done\n",
        "rs",
        &theme.syntect_theme(),
    )
    .expect("a text that can be highlighted");
    assert_eq!(lines.len(), 2);
    let text = rgb(0xa1, 0xb1, 0xff);
    let highlight_color = rgb(0x00, 0xd3, 0xbb);
    let background = rgb(0x09, 0x00, 0x2f);
    let shown: String = lines[0].spans.iter().map(|span| span.content.as_ref()).collect();
    assert_eq!(shown, "let x = 1;\n");
    // The number is a constant, and constants are highlighted.
    assert!(lines[0]
        .spans
        .contains(&styled("1", highlight_color, background)));
    // A comment is plain text.
    assert_eq!(
        lines[1],
        Line::from(vec![
            styled("//", text, background),
            styled(" done\n", text, background)
        ])
    );
    for line in &lines {
        for span in &line.spans {
            assert_eq!(span.style.bg, Some(background));
            assert!(span.style.fg == Some(text) || span.style.fg == Some(highlight_color));
        }
    }
}

#[test]
fn fragments_carry_their_highlighted_lines() {
    let content = "fn one() {}\nfn two() {}\nfn three() {}\n";
    let syntaxes = Syntaxes::load();
    let fragments = file_to_fragments(
        &syntaxes,
        "dir/sample.rs".to_string(),
        "rs",
        content,
        2,
        1,
        Theme::synthwave(),
    )
    .expect("a file that can be highlighted");
    let expected = highlight(&syntaxes, content, "rs", &Theme::synthwave().syntect_theme())
        .expect("a text that can be highlighted");
    assert_eq!(fragments[0].highlighted_content(), expected);
    assert_eq!(fragments[1].highlighted_content(), expected[2..].to_vec());
    assert_eq!(fragments[1].location(), "dir/sample.rs:2");
}

#[test]
fn files_of_unknown_kind_are_not_highlighted() {
    let syntaxes = Syntaxes::load();
    let scheme = Theme::synthwave().syntect_theme();
    assert_eq!(
        highlight(&syntaxes, "text", "no-such-extension", &scheme),
        Err(HighlightError::UnknownSyntax)
    );
    assert_eq!(
        highlight(&syntaxes, "text", "", &scheme),
        Err(HighlightError::UnknownSyntax)
    );
    // A scope of more than eight parts is none that the highlighter takes.
    let mut broken = Theme::synthwave().syntect_theme();
    broken.scope = "variable, a.b.c.d.e.f.g.h.i".to_string();
    assert_eq!(
        highlight(&syntaxes, "text", "rs", &broken),
        Err(HighlightError::InvalidScopes)
    );
    assert!(matches!(
        file_to_fragments(&syntaxes, "notes".to_string(), "", "text", 1, 1, Theme::synthwave()),
        Err(HighlightError::UnknownSyntax)
    ));
}

#[test]
fn text_is_split_after_every_line_feed() {
    let samples = [
        "",
        "\n",
        "a",
        "a\n",
        "a\nb",
        "a\r\nb\r\n",
        "\n\n\nx",
        "foo\nbar\n\r\nbaz\r",
        "héllo\nwörld\r\n→\n",
    ];
    for sample in samples {
        let expected: Vec<String> = syntect::util::LinesWithEndings::from(sample)
            .map(|line| line.to_string())
            .collect();
        assert_eq!(split_with_endings(sample), expected, "for {:?}", sample);
    }
}

#[test]
fn grammars_decide_what_can_be_highlighted() {
    let syntaxes = Syntaxes::load();
    let scheme = Theme::synthwave().syntect_theme();
    let text = "let x = 1;\n";
    // The set answers to an extension in either case of its letters.
    for extension in ["rs", "RS", "Rs"] {
        assert!(syntaxes.knows(extension));
        assert_eq!(
            highlight(&syntaxes, text, extension, &scheme),
            highlight(&syntaxes, text, "rs", &scheme)
        );
    }
    assert!(highlight(&syntaxes, text, "rs", &scheme).is_ok());
    // Without a grammar nothing is highlighted, whatever the text.
    for extension in ["rs?", "", "no-such-extension"] {
        assert!(!syntaxes.knows(extension));
        for content in ["", text, "\n\n"] {
            assert_eq!(
                highlight(&syntaxes, content, extension, &scheme),
                Err(HighlightError::UnknownSyntax)
            );
            assert_eq!(
                highlight_lines(&syntaxes, content, extension, &scheme),
                Err(HighlightError::UnknownSyntax)
            );
        }
    }
    // The grammar is looked for first, then the scheme is read.
    let mut broken = Theme::synthwave().syntect_theme();
    broken.scope = "a.b.c.d.e.f.g.h.i".to_string();
    assert_eq!(
        highlight(&syntaxes, text, "rs", &broken),
        Err(HighlightError::InvalidScopes)
    );
    assert_eq!(
        highlight(&syntaxes, text, "rs?", &broken),
        Err(HighlightError::UnknownSyntax)
    );
}

#[test]
fn every_line_has_its_outcome() {
    let syntaxes = Syntaxes::load();
    let scheme = Theme::synthwave().syntect_theme();
    for content in ["", "a", "a\n", "fn one() {}\nfn two() {}\n\nlet x = \"\n", "\n\n\n"] {
        let outcomes = highlight_lines(&syntaxes, content, "rs", &scheme)
            .expect("a text that can be highlighted");
        assert_eq!(outcomes.len(), split_with_endings(content).len());
        let lines = highlight(&syntaxes, content, "rs", &scheme)
            .expect("a text that can be highlighted");
        assert_eq!(lines, kept(outcomes));
    }
}

#[test]
fn what_failed_is_left_out() {
    assert_eq!(kept::<u8>(Vec::new()), Vec::<u8>::new());
    assert_eq!(kept::<u8>(vec![None, None]), Vec::<u8>::new());
    assert_eq!(kept(vec![Some(1), None, Some(3), Some(4), None]), vec![1, 3, 4]);
    assert_eq!(kept(vec![None, Some("b"), None]), vec!["b"]);
    assert_eq!(
        kept(vec![Some(Line::from("a")), None, Some(Line::from("c"))]),
        vec![Line::from("a"), Line::from("c")]
    );
}
