//! A verified model of a display-density diagnostic scene.
//!
//! The library computes, with exact rational arithmetic, the vertex and
//! index data for a fixed set of rectangles whose layout depends on a
//! window's logical size and its display-density factor, and the state
//! transitions of the window event loop that drives the redraws.
//! Uploading the data to the GPU and pumping the window events is left to
//! an unverified front end.

pub mod frac;
pub mod scene;
pub mod view;
