//! What a scene is made of.

use crate::math::{Rect, Vec2};
use vstd::prelude::*;

pub mod discretable;

verus! {

/// A rectangle that emits light.
#[derive(Clone, Copy, Debug, PartialEq, Eq)]
pub struct Light {
    /// Placement of the light in the scene.
    pub pos: Vec2,
    /// Shape of the light.
    pub rect: Rect,
}

/// A rectangle that stops light.
#[derive(Clone, Copy, Debug, PartialEq, Eq)]
pub struct Wall {
    /// Shape of the wall.
    pub rect: Rect,
}

} // verus!
