//! A checked boundary around the game plugin ABI: validated C strings, error
//! codes, and decoding and ownership of the foreign tagged unions.
use vstd::prelude::*;

pub mod error;
pub mod event;
pub mod game_init;
pub mod imgui;
pub mod log;
pub mod sys;
pub mod string;

verus! {

} // verus!
