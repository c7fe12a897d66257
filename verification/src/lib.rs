//! Verified core of a two-dimensional gravity simulation game: the ring of
//! predicted positions, the collection of masses and which pairs of them pull
//! on each other, the table of scenes, the keyboard controls and the integer
//! parts of the drawing.

pub mod canvas;
pub mod controls;
pub mod masses;
pub mod prediction;
pub mod scene;
