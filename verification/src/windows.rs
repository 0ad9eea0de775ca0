//! The orb window: its placement rules and the decisions its commands make.
pub mod orb;
pub mod positioning;
