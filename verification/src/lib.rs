//! Decision logic of the native Robots AI host: handler-family ownership,
//! gameplay random streams, deferred destruction, creator latches, hit-check
//! retention and permanent sound registration.

pub mod collections;
pub mod deferred_destroy;
pub mod handler_class;
pub mod behavior;
pub mod rng;
pub mod creator;
pub mod standard_monster;
pub mod sound;
pub mod instance;
pub mod frame;
pub mod em07_piranha;
