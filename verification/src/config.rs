//! Window placement settings.
use vstd::prelude::*;

verus! {

#[derive(Debug, Clone, Copy, PartialEq, Eq, Structural)]
pub struct WindowPosition {
    pub x: i32,
    pub y: i32,
}

} // verus!
