//! Discrete core of a race-track and terrain authoring pipeline.
//!
//! The geometry of a track is evaluated in floating point by the host
//! application; this library decides everything that can be stated exactly:
//! how a banked ribbon is split into columns and rows, where each column lies
//! across the ribbon and how strongly it blends into the terrain, how the
//! triangles of a grid are wound, how segments chain end to end, how the
//! segment list is edited, and which scene items a rebuild replaces.
pub mod layout;
pub mod grid;
pub mod mesh;
pub mod chain;
pub mod segments;
pub mod scene;
