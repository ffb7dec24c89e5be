//! The exact, integral part of a colour library: colours as devices store
//! them, the text formats that denote them, named palettes and terminal
//! escapes.

pub mod color;
pub mod color_funcs;
pub mod consts;
pub mod csscolor;
pub mod cssnumeric;
pub mod html;
pub mod material_colors;
pub mod mix;
pub mod terminal;
pub mod text;
