//! Simulation core of a two-dimensional side-scrolling action game.
//!
//! The crate advances movers, resolves their collisions with static terrain,
//! arbitrates projectile hits, drives the distance-banded behaviour of enemies
//! and of the boss, and keeps the curse level that reacts to combat. All
//! quantities are fixed-point integers; see [`units`].

pub mod units;
pub mod geometry;
pub mod aabb;
pub mod timer;
pub mod enemy;
pub mod movement;
pub mod animation;
pub mod boss;
pub mod gun;
pub mod level;
pub mod player;
pub mod food;
pub mod platform;
pub mod layout;
pub mod despawn;
