//! The combat core of an arcade flight game: enemy spawning, the per-enemy
//! behaviour state machine, combat resolution and radio chatter, computed on
//! fixed-point integers so that every rule can be stated and proved exactly.

pub mod ai;
pub mod archetypes;
pub mod behavior;
pub mod chatter;
pub mod combat;
pub mod entities;
pub mod formation;
pub mod game_state;
pub mod geometry;
pub mod maneuvers;
pub mod powerups;
pub mod random;
pub mod spawner;
pub mod targets;
pub mod units;
