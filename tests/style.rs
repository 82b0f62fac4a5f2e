use nterm::paint::{clear_ops, glyph_ops, text_ops, Op};
use nterm::{AlternativeCharacter, Attributes, Color};

#[test]
fn attribute_constructors() {
    let a = Attributes::new();
    assert_eq!(a, Attributes { foreground: Color::White, background: Color::Black, bold: false, underline: false });
    let b = Attributes::colors(Color::Red, Color::Normal);
    assert_eq!(b, Attributes { foreground: Color::Red, background: Color::Normal, bold: false, underline: false });
    let c = Attributes::background(Color::Blue);
    assert_eq!(c, Attributes { foreground: Color::White, background: Color::Blue, bold: false, underline: false });
}

#[test]
fn color_codes() {
    let all = [
        Color::Normal, Color::Black, Color::Red, Color::Green, Color::Yellow,
        Color::Blue, Color::Magenta, Color::Cyan, Color::White,
    ];
    for (i, c) in all.iter().enumerate() {
        assert_eq!(c.code(), i as i16 - 1);
    }
}

#[test]
fn glyph_letters() {
    assert_eq!(AlternativeCharacter::CornerTopLeft.letter(), 'l');
    assert_eq!(AlternativeCharacter::TeeRight.letter(), 'u');
    assert_eq!(AlternativeCharacter::TeeLeft.letter(), 't');
    assert_eq!(AlternativeCharacter::Block.letter(), '0');
    assert_eq!(AlternativeCharacter::ArrowUp.letter(), '-');
}

#[test]
fn status_text_is_painted_under_its_style() {
    let mut attrs = Attributes::colors(Color::Red, Color::Normal);
    attrs.underline = true;
    let ops = text_ops("status", 2, 1, attrs);
    assert_eq!(
        ops,
        vec![
            Op::StyleOn(Attributes { foreground: Color::Red, background: Color::Normal, bold: false, underline: true }),
            Op::Text { x: 2, y: 1, text: "status".to_string() },
            Op::StyleOff,
        ]
    );
}

#[test]
fn glyph_is_painted_under_its_style() {
    let attrs = Attributes::new();
    let ops = glyph_ops(AlternativeCharacter::Diamond, 5, 6, attrs);
    assert_eq!(ops, vec![Op::StyleOn(attrs), Op::Glyph { x: 5, y: 6, symbol: AlternativeCharacter::Diamond }, Op::StyleOff]);
}

#[test]
fn clearing_uses_white_on_the_background() {
    let ops = clear_ops(Color::Green);
    assert_eq!(ops, vec![Op::StyleOn(Attributes::background(Color::Green)), Op::Fill, Op::StyleOff]);
}

#[test]
fn glyph_letters_are_distinct() {
    let all = [
        AlternativeCharacter::CornerTopLeft,
        AlternativeCharacter::CornerTopRight,
        AlternativeCharacter::CornerBottomLeft,
        AlternativeCharacter::CornerBottomRight,
        AlternativeCharacter::TeeRight,
        AlternativeCharacter::TeeLeft,
        AlternativeCharacter::TeeUp,
        AlternativeCharacter::TeeDown,
        AlternativeCharacter::LineHorizontal,
        AlternativeCharacter::LineVertical,
        AlternativeCharacter::Crossover,
        AlternativeCharacter::LineHigh,
        AlternativeCharacter::LineLow,
        AlternativeCharacter::Diamond,
        AlternativeCharacter::Stipple,
        AlternativeCharacter::Bullet,
        AlternativeCharacter::ArrowLeft,
        AlternativeCharacter::ArrowRight,
        AlternativeCharacter::ArrowUp,
        AlternativeCharacter::ArrowDown,
        AlternativeCharacter::Block,
    ];
    for (i, a) in all.iter().enumerate() {
        for (j, b) in all.iter().enumerate() {
            assert_eq!(i == j, a.letter() == b.letter());
        }
    }
}

#[test]
fn distinct_colors_have_distinct_codes() {
    let all = [
        Color::Normal, Color::Black, Color::Red, Color::Green, Color::Yellow,
        Color::Blue, Color::Magenta, Color::Cyan, Color::White,
    ];
    for a in all.iter() {
        for b in all.iter() {
            assert_eq!(a == b, a.code() == b.code());
        }
    }
}
