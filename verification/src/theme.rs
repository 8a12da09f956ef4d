//! Colour palettes for the interface and for highlighted source text.

use vstd::prelude::*;

verus! {

/// A colour by its red, green and blue parts.
#[derive(Clone, Copy, Debug, PartialEq, Eq, Structural)]
pub struct Color {
    pub r: u8,
    pub g: u8,
    pub b: u8,
}

/// A colour with an opacity, as a syntax highlighter takes it.
#[derive(Clone, Copy, Debug, PartialEq, Eq, Structural)]
pub struct SyntectColor {
    pub r: u8,
    pub g: u8,
    pub b: u8,
    pub a: u8,
}

/// The colours of the interface, and whether animated effects are shown.
#[derive(Clone, Copy, Debug, PartialEq, Eq, Structural)]
pub struct Theme {
    pub title: Color,
    pub highlight: Color,
    pub text: Color,
    pub gauge: Color,
    pub border: Color,
    pub background: Color,
    pub fx_enabled: bool,
}

/// A two-colour highlighting scheme: plain text in one colour on a
/// background, and the names and literals that `scope` selects in another.
#[derive(Debug, Clone, PartialEq, Eq)]
pub struct SyntectTheme {
    pub name: String,
    pub author: String,
    pub background: SyntectColor,
    pub foreground: SyntectColor,
    pub gutter_foreground: SyntectColor,
    pub scope: String,
    pub scope_foreground: SyntectColor,
}

/// The scheme's name.
pub open spec fn scheme_name() -> Seq<char> {
    "two-color"@
}

/// The scheme's author.
pub open spec fn scheme_author() -> Seq<char> {
    "auto-generated"@
}

/// The scopes that are shown in the highlight colour.
pub open spec fn highlighted_scopes() -> Seq<char> {
    "variable, variable.other, variable.readwrite, entity.name, entity.name.type, entity.name.class, entity.name.function, entity.name.method, entity.other.inherited-class, support.type, support.class, constant, constant.numeric, constant.character, string, string.quoted, string.other"@
}

/// The colour `value`, fully opaque.
pub open spec fn opaque(value: Color) -> SyntectColor {
    SyntectColor { r: value.r, g: value.g, b: value.b, a: 0xff }
}

/// The colour `value` as the highlighter takes it: fully opaque.
#[verifier::when_used_as_spec(opaque)]
pub fn color_to_syntect(value: Color) -> (c: SyntectColor)
    ensures
        c == opaque(value),
{
    SyntectColor { r: value.r, g: value.g, b: value.b, a: 0xff }
}

impl Theme {
    /// The default palette, with animated effects.
    pub open spec fn spec_synthwave() -> Theme {
        Theme {
            title: Color { r: 0xf8, g: 0x61, b: 0xb4 },
            highlight: Color { r: 0x00, g: 0xd3, b: 0xbb },
            text: Color { r: 0xa1, g: 0xb1, b: 0xff },
            gauge: Color { r: 0x50, g: 0x03, b: 0x23 },
            border: Color { r: 0x42, g: 0x2a, b: 0xd5 },
            background: Color { r: 0x09, g: 0x00, b: 0x2f },
            fx_enabled: true,
        }
    }

    /// A palette that colour-blind readers can tell apart, without animated
    /// effects.
    pub open spec fn spec_accessibility() -> Theme {
        Theme {
            title: Color { r: 0xcc, g: 0x79, b: 0xa7 },
            highlight: Color { r: 0x00, g: 0x9e, b: 0x73 },
            text: Color { r: 0x56, g: 0xb4, b: 0xe9 },
            gauge: Color { r: 0xe6, g: 0x9f, b: 0x00 },
            border: Color { r: 0x42, g: 0x2a, b: 0xd5 },
            background: Color { r: 0x00, g: 0x00, b: 0x00 },
            fx_enabled: false,
        }
    }

    /// The default palette, with animated effects.
    #[verifier::when_used_as_spec(spec_synthwave)]
    pub fn synthwave() -> (t: Theme)
        ensures
            t == Theme::spec_synthwave(),
    {
        Theme {
            title: Color { r: 0xf8, g: 0x61, b: 0xb4 },
            highlight: Color { r: 0x00, g: 0xd3, b: 0xbb },
            text: Color { r: 0xa1, g: 0xb1, b: 0xff },
            gauge: Color { r: 0x50, g: 0x03, b: 0x23 },
            border: Color { r: 0x42, g: 0x2a, b: 0xd5 },
            background: Color { r: 0x09, g: 0x00, b: 0x2f },
            fx_enabled: true,
        }
    }

    /// A palette that colour-blind readers can tell apart, without animated
    /// effects.
    #[verifier::when_used_as_spec(spec_accessibility)]
    pub fn accessibility() -> (t: Theme)
        ensures
            t == Theme::spec_accessibility(),
    {
        Theme {
            title: Color { r: 0xcc, g: 0x79, b: 0xa7 },
            highlight: Color { r: 0x00, g: 0x9e, b: 0x73 },
            text: Color { r: 0x56, g: 0xb4, b: 0xe9 },
            gauge: Color { r: 0xe6, g: 0x9f, b: 0x00 },
            border: Color { r: 0x42, g: 0x2a, b: 0xd5 },
            background: Color { r: 0x00, g: 0x00, b: 0x00 },
            fx_enabled: false,
        }
    }

    /// The highlighting scheme that goes with this palette: the text colour
    /// on the background, in the gutter too, and the highlight colour for
    /// the selected scopes; all of them opaque.
    pub fn syntect_theme(&self) -> (theme: SyntectTheme)
        ensures
            theme.name@ == scheme_name(),
            theme.author@ == scheme_author(),
            theme.background == opaque(self.background),
            theme.foreground == opaque(self.text),
            theme.gutter_foreground == opaque(self.text),
            theme.scope@ == highlighted_scopes(),
            theme.scope_foreground == opaque(self.highlight),
    {
        let text_color = color_to_syntect(self.text);
        SyntectTheme {
            name: "two-color".to_owned(),
            author: "auto-generated".to_owned(),
            background: color_to_syntect(self.background),
            foreground: text_color,
            gutter_foreground: text_color,
            scope: "variable, variable.other, variable.readwrite, entity.name, entity.name.type, entity.name.class, entity.name.function, entity.name.method, entity.other.inherited-class, support.type, support.class, constant, constant.numeric, constant.character, string, string.quoted, string.other".to_owned(),
            scope_foreground: color_to_syntect(self.highlight),
        }
    }
}

} // verus!
