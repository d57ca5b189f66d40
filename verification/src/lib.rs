//! Musical scores as data, and their exact timing.
//!
//! A song is built bar by bar with [`song::SongBuilder`]. Every bar is
//! filled exactly, and every time is an exact rational number until it is
//! cut to whole nanoseconds and samples by [`playable::PlayableSong`].

pub mod compass;
pub mod effects;
pub mod manner;
pub mod note;
pub mod number;
pub mod pitch;
pub mod playable;
pub mod song;
pub mod source;
pub mod tempo;
pub mod tone;
