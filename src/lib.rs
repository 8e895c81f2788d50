//! Hexadecimal views over byte slices.
//!
//! [`Hex`] renders its bytes with lower-case digits, [`UpperHex`] with
//! upper-case digits; [`HexDisplayExt`] builds either view from a byte
//! slice or array. Rendering is specified by [`text::hex_text`].
pub mod text;
pub mod view;

pub use view::{Hex, HexDisplayExt, HexModel, UpperHex};
