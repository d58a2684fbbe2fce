//! Images in the terminal: pixel matrices, sixel columns and texels (colored
//! block characters).

pub mod mat;
pub mod sixel;
pub mod texel;
