//! An agent that banks coins in a simulated grid world, choosing among ten
//! high-level actions by tabular Q-learning.
//!
//! The world simulation, route planner and content index are outside
//! collaborators: the library takes the decisions around them (admission gate,
//! target choice, route walking, result classification, reward slot, coin
//! bookkeeping) as functions of the values they answer with.

pub mod actions;
pub mod agent;
pub mod backpack;
mod chance;
pub mod charting;
pub mod data_storage;
pub mod events;
pub mod explore;
pub mod grid;
pub mod showcase;
pub mod states;
pub mod trainer;
pub mod visual;
pub mod world;
