//! An analog clock for the terminal: the geometry of its face and the
//! decisions of the loop that redraws it.
pub mod face;

pub mod frame_loop;
