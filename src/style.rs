//! Colors, cell attributes, cursor states and the alternative character set.

use vstd::prelude::*;

verus! {

/// The options for a cell's foreground or background color.
#[derive(Clone, Copy, Debug, PartialEq, Eq, Structural)]
pub enum Color {
    /// The default foreground or background color of the terminal.
    Normal,
    Black,
    Red,
    Green,
    Yellow,
    Blue,
    Magenta,
    Cyan,
    White,
}

/// The backend's number for a color: `-1` for the terminal's default color,
/// then `0` to `7` in the order of the standard palette.
pub open spec fn color_code(c: Color) -> int {
    match c {
        Color::Normal => -1,
        Color::Black => 0,
        Color::Red => 1,
        Color::Green => 2,
        Color::Yellow => 3,
        Color::Blue => 4,
        Color::Magenta => 5,
        Color::Cyan => 6,
        Color::White => 7,
    }
}

impl Color {
    /// The backend's number for this color.
    pub fn code(&self) -> (r: i16)
        ensures
            r == color_code(*self),
    {
        match self {
            Color::Normal => -1,
            Color::Black => 0,
            Color::Red => 1,
            Color::Green => 2,
            Color::Yellow => 3,
            Color::Blue => 4,
            Color::Magenta => 5,
            Color::Cyan => 6,
            Color::White => 7,
        }
    }
}

/// Distinct colors have distinct backend numbers.
pub proof fn lemma_color_code_injective(a: Color, b: Color)
    requires
        color_code(a) == color_code(b),
    ensures
        a == b,
{
}

/// Attributes associated with a cell on the terminal.
#[derive(Clone, Copy, Debug, PartialEq, Eq, Structural)]
pub struct Attributes {
    pub foreground: Color,
    pub background: Color,
    pub bold: bool,
    pub underline: bool,
}

impl Attributes {
    /// Create a default set of attributes: white on black, neither bold nor
    /// underlined.
    pub fn new() -> (r: Attributes)
        ensures
            r == (Attributes {
                foreground: Color::White,
                background: Color::Black,
                bold: false,
                underline: false,
            }),
    {
        Attributes { foreground: Color::White, background: Color::Black, bold: false, underline: false }
    }

    /// Create a set of attributes from a foreground and background color.
    pub fn colors(foreground: Color, background: Color) -> (r: Attributes)
        ensures
            r == (Attributes { foreground, background, bold: false, underline: false }),
    {
        Attributes { foreground, background, bold: false, underline: false }
    }

    /// Create a set of attributes from just a background color (setting the
    /// foreground color to white).
    pub fn background(background: Color) -> (r: Attributes)
        ensures
            r == (Attributes { foreground: Color::White, background, bold: false, underline: false }),
    {
        Attributes { foreground: Color::White, background, bold: false, underline: false }
    }
}

/// Possible cursor states.
#[derive(Clone, Copy, Debug, PartialEq, Eq, Structural)]
pub enum Cursor {
    Invisible,
    Visible,
    VeryVisible,
}

/// Characters in the alternative character set.
#[derive(Clone, Copy, Debug, PartialEq, Eq, Structural)]
pub enum AlternativeCharacter {
    CornerTopLeft,
    CornerTopRight,
    CornerBottomLeft,
    CornerBottomRight,
    TeeRight,
    TeeLeft,
    TeeUp,
    TeeDown,
    LineHorizontal,
    LineVertical,
    Crossover,
    LineHigh,
    LineLow,
    Diamond,
    Stipple,
    Bullet,
    ArrowLeft,
    ArrowRight,
    ArrowUp,
    ArrowDown,
    Block,
}

/// The VT100 alternate-character-set letter under which the backend keeps
/// the glyph of each symbol.
pub open spec fn acs_letter(c: AlternativeCharacter) -> char {
    match c {
        AlternativeCharacter::CornerTopLeft => 'l',
        AlternativeCharacter::CornerTopRight => 'k',
        AlternativeCharacter::CornerBottomLeft => 'm',
        AlternativeCharacter::CornerBottomRight => 'j',
        AlternativeCharacter::TeeRight => 'u',
        AlternativeCharacter::TeeLeft => 't',
        AlternativeCharacter::TeeUp => 'v',
        AlternativeCharacter::TeeDown => 'w',
        AlternativeCharacter::LineHorizontal => 'q',
        AlternativeCharacter::LineVertical => 'x',
        AlternativeCharacter::Crossover => 'n',
        AlternativeCharacter::LineHigh => 'o',
        AlternativeCharacter::LineLow => 's',
        AlternativeCharacter::Diamond => '`',
        AlternativeCharacter::Stipple => 'a',
        AlternativeCharacter::Bullet => '~',
        AlternativeCharacter::ArrowLeft => ',',
        AlternativeCharacter::ArrowRight => '+',
        AlternativeCharacter::ArrowUp => '-',
        AlternativeCharacter::ArrowDown => '.',
        AlternativeCharacter::Block => '0',
    }
}

impl AlternativeCharacter {
    /// The alternate-character-set letter that selects this symbol's glyph.
    pub fn letter(&self) -> (r: char)
        ensures
            r == acs_letter(*self),
    {
        match self {
            AlternativeCharacter::CornerTopLeft => 'l',
            AlternativeCharacter::CornerTopRight => 'k',
            AlternativeCharacter::CornerBottomLeft => 'm',
            AlternativeCharacter::CornerBottomRight => 'j',
            AlternativeCharacter::TeeRight => 'u',
            AlternativeCharacter::TeeLeft => 't',
            AlternativeCharacter::TeeUp => 'v',
            AlternativeCharacter::TeeDown => 'w',
            AlternativeCharacter::LineHorizontal => 'q',
            AlternativeCharacter::LineVertical => 'x',
            AlternativeCharacter::Crossover => 'n',
            AlternativeCharacter::LineHigh => 'o',
            AlternativeCharacter::LineLow => 's',
            AlternativeCharacter::Diamond => '`',
            AlternativeCharacter::Stipple => 'a',
            AlternativeCharacter::Bullet => '~',
            AlternativeCharacter::ArrowLeft => ',',
            AlternativeCharacter::ArrowRight => '+',
            AlternativeCharacter::ArrowUp => '-',
            AlternativeCharacter::ArrowDown => '.',
            AlternativeCharacter::Block => '0',
        }
    }
}

/// Every symbol has a glyph of its own: no two symbols share a letter.
pub proof fn lemma_acs_letter_injective(a: AlternativeCharacter, b: AlternativeCharacter)
    requires
        acs_letter(a) == acs_letter(b),
    ensures
        a == b,
{
}

} // verus!
