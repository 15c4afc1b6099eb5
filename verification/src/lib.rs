//! A creature on a fixed-size grid, and the triangle mesh of what it looks like.
//!
//! The grid holds the whole state of the simulation. One call of
//! [`simulator::step`] advances it by a tick, and [`mesh::build`] turns the
//! occupied cells into the vertices of their visible faces. [`game::Game`]
//! keeps a grid and its mesh in step with each other.
//!
//! Every coordinate in the library is an integer. Positions are corners of
//! unit cubes, and texture coordinates count tiles of the atlas, so a renderer
//! divides the latter by [`block_face::ATLAS_TILES`] to normalise them.

pub mod direction;
pub mod cell;
pub mod block_face;
pub mod grid;
pub mod grid_proofs;
pub mod simulator;
pub mod mesh;
pub mod mesh_proofs;
pub mod game;
