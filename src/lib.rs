//! Paced window recording and GIF encoding: a frame-rate clock, a capture
//! session state machine, an encoder over the `gif` crate, and the mapping
//! from command-line values to typed settings.

pub mod fps;
pub mod image;
pub mod encode;
pub mod record;
pub mod parse;
pub mod paths;
pub mod natural;
pub mod anim;
pub mod command;
