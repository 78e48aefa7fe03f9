//! Monochrome bitmap-font text rendering into a packed 1-bit frame buffer.

pub mod blit;
pub mod cliprect;
pub mod cursor;
pub mod demo;
pub mod m3hash;
pub mod fonts;
pub mod framebuffer;
pub mod glyphstyle;
pub mod pt;
pub mod state;
pub mod text;
pub mod views;

pub use blit::{clear_region, draw_ellipsis, paint_str, simulate_char, xor_char, CharPainter};
pub use cliprect::ClipRect;
pub use cursor::Cursor;
pub use fonts::{GlyphData, GlyphHeader, GlyphSet, NoGlyphErr};
pub use framebuffer::{new_fr_buf, FrBuf, FRAME_BUF_SIZE, LINES, WIDTH, WORDS_PER_LINE};
pub use glyphstyle::{glyph_to_height_hint, GlyphStyle};
pub use pt::Pt;
