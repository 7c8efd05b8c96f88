pub mod ascii_display;
pub mod chip8;
pub mod config;
pub mod display;
pub mod errors;
pub mod execute;
pub mod font;
pub mod instruction;
pub mod keypad;
pub mod laws;
pub mod model;
pub mod rng;
pub mod util;
