//! A virtual pet for the terminal.
//!
//! The pet has three needs (food, happiness, weight) that move in
//! discrete turns: the player feeds it or plays with it, and chance wears
//! the needs down. Its mood follows from the needs, and the mood together
//! with the frame of the animation decides how the pet is drawn.
//!
//! * [`pet`] holds the state and the rules that change it.
//! * [`render`] turns a state into the text that is shown.
//! * [`command`] reads what the player typed.
//! * [`game`] decides, turn by turn, whether play goes on.
//! * [`text`] has the helpers on text that the others share.
//!
//! The library reads no input and prints nothing. A driver around it does
//! both, and pauses between the turns.

pub mod command;
pub mod game;
pub mod pet;
pub mod render;
pub mod text;
