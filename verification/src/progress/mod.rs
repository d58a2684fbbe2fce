//! Progress reporting: when to update, and the text of progress bars and
//! progress dots.

pub mod bar;
pub mod dots;
pub mod duration;
pub mod iter;
pub mod no_state;
pub mod update;
