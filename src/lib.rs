//! The decisions of a small rigid-body physics core: which bodies a world
//! step advances and which pairs it checks, how a box contact is chosen,
//! how the pairwise detectors are dispatched, how a body switches kind, and
//! mutable access to two distinct bodies of one store.

pub mod body;
pub mod camera;
pub mod narrow;
pub mod slots;
pub mod world;
