//! Tactical-map kernel of a tick-driven hex-grid game.
//!
//! * [`hex`]: positions, the six directions, rotation and neighbours.
//! * [`tile`], [`grid`]: terrain and the toroidal grid that holds it.
//! * [`action`]: what a creature can do and how long it takes.
//! * [`creature`]: a creature's place, facing, pending action and fog of war.
//! * [`sight`]: what a depth-bounded sweep over the terrain reaches.
//! * [`map`]: the map, which owns the terrain and the creatures, keeps at
//!   most one creature on a cell, and advances creatures tick by tick.
//! * [`policy`]: who chooses a creature's actions.
//! * [`view`]: a map read through an observer's own coordinates.
//! * [`screen`]: where cells and sprites go on a screen.
//! * [`random`]: the random generator that is handed in from outside.
//!
//! A policy reads the map when it chooses, so it cannot be a part of the
//! map: whoever drives the simulation keeps one policy per creature and
//! hands it to [`map::HexMap::tick`] together with the creature's handle.
#![allow(non_camel_case_types)]

pub mod action;
pub mod creature;
pub mod grid;
pub mod hex;
pub mod map;
pub mod policy;
pub mod random;
pub mod screen;
pub mod sight;
pub mod tile;
pub mod view;
