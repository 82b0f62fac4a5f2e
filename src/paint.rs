//! The drawing discipline shared by every drawable surface.
//!
//! A styled paint is planned as a short list of backend operations: the
//! style is switched on, one thing is painted, and the style is switched off
//! again straight after, every time. A surface runs the operations in order
//! against its own backend handle.

use crate::style::{AlternativeCharacter, Attributes, Color};
use vstd::prelude::*;

verus! {

/// One operation on a surface's backend.
#[derive(Clone, Debug, PartialEq, Eq)]
pub enum Op {
    /// Register the style's colors as the active color pair and switch the
    /// pair, and bold and underline where the style asks for them, on.
    StyleOn(Attributes),
    /// Switch the active color pair, bold and underline off.
    StyleOff,
    /// Paint a symbol of the alternative character set at a column and row.
    Glyph { x: u32, y: u32, symbol: AlternativeCharacter },
    /// Paint a string at a column and row, extending rightward.
    Text { x: u32, y: u32, text: String },
    /// Fill the surface's background with the active color pair.
    Fill,
}

/// The operations of one paint under a style: on, paint, off.
pub open spec fn styled(attributes: Attributes, paint: Op) -> Seq<Op> {
    seq![Op::StyleOn(attributes), paint, Op::StyleOff]
}

/// The style that clearing to a background color uses: that background under
/// the default white foreground, neither bold nor underlined.
pub open spec fn clearing_style(background: Color) -> Attributes {
    Attributes { foreground: Color::White, background, bold: false, underline: false }
}

/// Plans painting a symbol of the alternative character set at `(x, y)`.
pub fn glyph_ops(symbol: AlternativeCharacter, x: u32, y: u32, attributes: Attributes) -> (r: Vec<Op>)
    ensures
        r@ == styled(attributes, Op::Glyph { x, y, symbol }),
{
    let r = vec![Op::StyleOn(attributes), Op::Glyph { x, y, symbol }, Op::StyleOff];
    assert(r@ =~= styled(attributes, Op::Glyph { x, y, symbol }));
    r
}

/// Plans painting a string at `(x, y)`. The string is painted as given:
/// neither wrapped nor cut at the surface's edge.
pub fn text_ops(text: &str, x: u32, y: u32, attributes: Attributes) -> (r: Vec<Op>)
    ensures
        r@.len() == 3,
        r@[0] == Op::StyleOn(attributes),
        r@[1] matches Op::Text { x: tx, y: ty, text: t } && tx == x && ty == y && t@ == text@,
        r@[2] == Op::StyleOff,
{
    vec![Op::StyleOn(attributes), Op::Text { x, y, text: text.to_owned() }, Op::StyleOff]
}

/// Plans clearing a surface to a background color.
pub fn clear_ops(background: Color) -> (r: Vec<Op>)
    ensures
        r@ == styled(clearing_style(background), Op::Fill),
{
    let r = vec![Op::StyleOn(Attributes::background(background)), Op::Fill, Op::StyleOff];
    assert(r@ =~= styled(clearing_style(background), Op::Fill));
    r
}

} // verus!
