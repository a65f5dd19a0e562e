//! Semantic layer of a document compiler: cascading styles, capability
//! dispatch over heterogeneous content nodes, location-addressable counters,
//! and outline extraction, instantiated for a section-heading element.

pub mod content;
pub mod counter;
pub mod errors;
pub mod heading;
pub mod node;
pub mod numbering;
pub mod outline;
pub mod style;
