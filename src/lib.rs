//! A higher-level layer over a character-cell terminal backend: a style
//! model, a glyph table, a typed input-event model, and the verified logic
//! that turns raw backend input into events and paint requests into ordered
//! backend operations.

pub mod event;
pub mod input;
pub mod paint;
pub mod style;

pub use event::{Event, Key, MouseButton};
pub use input::{decode_mouse, special_key_of, translate, Awaiting, Poller, Reading, Translation};
pub use paint::{clear_ops, glyph_ops, text_ops, Op};
pub use style::{AlternativeCharacter, Attributes, Color, Cursor};
