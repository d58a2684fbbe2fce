//! Terminal escape codes, colored templates, colored text, texel images and
//! progress formatting, with their behaviour stated and proved.

pub mod text;
pub mod rgb;
pub mod codes;
pub mod template;
pub mod gradient;
pub mod image;
pub mod progress;
pub mod echo;
