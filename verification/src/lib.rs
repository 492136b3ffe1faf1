//! In-scene interaction layer of a 2D level editor: exact-arithmetic
//! screen-to-world projection, rectangle hit-testing, the pointer
//! click/drag state machine, pan/zoom camera controllers, and the
//! persistent entity identity registry.

pub mod entity_uuid;
pub mod frac;
pub mod geom;
pub mod project;
pub mod select;
pub mod clicks;
pub mod pan;
pub mod zoom;
