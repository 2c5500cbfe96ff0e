//! Game rules of a top-down tank arena: input bindings, the class tree and
//! upgrade levels of tanks, framing of network messages and the broad phase of
//! collision detection.
pub mod contact;
pub mod controls;
pub mod evolution;
pub mod framing;
pub mod input;
pub mod registry;
pub mod shapes;
pub mod sweep;
