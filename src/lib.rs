//! A multiplication drill driven by single key presses.
//!
//! The library holds every decision the drill makes: which problem is posed,
//! how key presses build up an answer, how an answer is judged and what is
//! shown in reply. The terminal itself (raw mode, reading key events, drawing
//! text and colours) is left to the program that embeds it.

pub mod input;
pub mod output;
pub mod problem;
pub mod session;
