//! Geometric values, as scalar words.
//!
//! The canonical transform exchanged between the simulation and the
//! instance store is a 2D position together with a rotation held as a unit
//! complex number (cosine and sine words). The simulation engine reports
//! rotations in exactly that shape, and a rotation matrix is assembled from
//! it by placing and sign-flipping words, with no arithmetic on the values.

use vstd::prelude::*;
use crate::scalar::{word_neg, WORD_ONE, WORD_ZERO};

verus! {

/// A 3D point, one word per coordinate.
#[derive(Clone, Copy, PartialEq, Eq, Structural, Debug)]
pub struct Point3 {
    pub x: u32,
    pub y: u32,
    pub z: u32,
}

/// A 2D rotation as a unit complex number: the cosine and sine words of the
/// rotation angle.
#[derive(Clone, Copy, PartialEq, Eq, Structural, Debug)]
pub struct Rot2 {
    pub cos: u32,
    pub sin: u32,
}

/// The canonical 2D transform: a position and a rotation.
#[derive(Clone, Copy, PartialEq, Eq, Structural, Debug)]
pub struct Transform2 {
    pub x: u32,
    pub y: u32,
    pub rot: Rot2,
}

impl Rot2 {
    /// The identity rotation: cosine one, sine zero.
    pub fn identity() -> (r: Rot2)
        ensures
            r.cos == WORD_ONE,
            r.sin == WORD_ZERO,
    {
        Rot2 { cos: WORD_ONE, sin: WORD_ZERO }
    }
}

/// The sixteen words of the column-major 4x4 model matrix that translates
/// by `p` after rotating about the z axis by `r`: columns
/// (cos, sin, 0, 0), (-sin, cos, 0, 0), (0, 0, 1, 0), (x, y, z, 1).
pub open spec fn model_words(p: Point3, r: Rot2) -> Seq<u32> {
    seq![
        r.cos, r.sin, WORD_ZERO, WORD_ZERO,
        word_neg(r.sin), r.cos, WORD_ZERO, WORD_ZERO,
        WORD_ZERO, WORD_ZERO, WORD_ONE, WORD_ZERO,
        p.x, p.y, p.z, WORD_ONE,
    ]
}

} // verus!
