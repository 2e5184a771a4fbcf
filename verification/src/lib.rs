//! Integer logic of three GPU compute-shader simulations (Game of Life,
//! Boids, Mold) and of a headless compute harness: work-group sizing,
//! slider snapping, double buffering, settings resets and event handling.
//! The GL calls themselves live in the application around this library.

pub mod boids;
pub mod buffer;
pub mod control;
pub mod grid;
pub mod headless;
pub mod life;
pub mod mold;
pub mod pingpong;
