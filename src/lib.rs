//! An animation state machine for sprite-based entities: a graph of
//! animation clips whose edges fire on named boolean states.

pub mod animation_graph;
pub mod animation_states;
pub mod animation_collection;
pub mod spritesheet_animation;
pub mod animation_manager;
pub mod laws;
