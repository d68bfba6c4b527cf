//! A small desktop-shell core with two responsibilities: a greeting command
//! answered for the front end, and the decisions of the startup routine that
//! locates and launches a bundled backend executable. The surrounding shell
//! performs the path lookup and the process spawn and reports each outcome;
//! everything decided here is verified.

pub mod bootstrap;
pub mod greeting;
