//! A terminal directory browser's core: directory paths, snapshots of a
//! directory's children, the navigation state machine, key handling and the
//! projection of the state into draw instructions.
use vstd::prelude::*;

pub mod path;
pub mod snapshot;
pub mod nav;
pub mod render;
pub mod frame;
pub mod keys;

verus! {

} // verus!
