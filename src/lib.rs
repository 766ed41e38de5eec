//! Control core of a network-addressable ambient light fixture: a fixed-point
//! colour engine with stackable animations, and the start-up provisioning logic.

pub mod color;
pub mod transition;
pub mod led;
pub mod setup;
pub mod lamp;
pub mod storage;
pub mod network;
