//! Shared and exclusive references held side by side, and collections
//! that hand them out one key at a time.
use vstd::prelude::*;

pub mod collections;
pub mod iter;
pub mod kind;
pub mod laws;
pub mod many;
pub mod map;
pub mod moves;

pub use kind::RefKind;
pub use many::Many;
pub use map::RefKindMap;
pub use moves::{Move, MoveError, MoveMut, MoveRef};
