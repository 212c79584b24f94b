//! The uniform records the shaders read.
//!
//! Each record has a frozen word layout: the shading parameters (eight
//! words), the per-shape rotation matrix (sixteen words: the angle word,
//! the nine words of a column-major 3x3 rotation about the y axis, and six
//! padding words), the orthographic projection (sixteen words), and the
//! four-point gradient (thirty-two words). The records are assembled by
//! placing and sign-flipping scalar words; the trigonometric words and the
//! aspect quotient are computed at the boundary and handed in.

use vstd::prelude::*;
use crate::geometry::{Point3, Rot2};
use crate::scalar::{word_neg, WORD_HALF, WORD_NEG_HALF, WORD_ONE, WORD_ZERO};

verus! {

/// Word of the value one tenth: the initial edge-feather width.
pub const WORD_TENTH: u32 = 0x3dcc_cccd;

/// Word of the value four fifths.
pub const WORD_FOUR_FIFTHS: u32 = 0x3f4c_cccd;

/// Word of the value minus four fifths.
pub const WORD_NEG_FOUR_FIFTHS: u32 = 0xbf4c_cccd;

/// Word of the value two fifths.
pub const WORD_TWO_FIFTHS: u32 = 0x3ecc_cccd;

/// Word of the value minus two fifths.
pub const WORD_NEG_TWO_FIFTHS: u32 = 0xbecc_cccd;

/// Word of the value nine tenths.
pub const WORD_NINE_TENTHS: u32 = 0x3f66_6666;

/// Word of the value minus seven tenths.
pub const WORD_NEG_SEVEN_TENTHS: u32 = 0xbf33_3333;

/// The rotation-uniform record: the angle word, the nine words of the
/// column-major 3x3 matrix of a rotation about the y axis, and six words
/// of padding, sixteen words in all.
#[derive(Clone, Copy, PartialEq, Eq, Debug)]
pub struct ActionMatrix {
    pub theta: u32,
    pub mat: [u32; 9],
    pub padding: [u32; 6],
}

/// The nine words, column-major, of the 3x3 matrix rotating about the y
/// axis by the angle whose cosine and sine words `r` holds: columns
/// (cos, 0, -sin), (0, 1, 0), (sin, 0, cos).
pub open spec fn rotation_y_words(r: Rot2) -> Seq<u32> {
    seq![
        r.cos, WORD_ZERO, word_neg(r.sin),
        WORD_ZERO, WORD_ONE, WORD_ZERO,
        r.sin, WORD_ZERO, r.cos,
    ]
}

impl ActionMatrix {
    /// The sixteen words of the record: the angle word, the matrix, the
    /// padding.
    pub open spec fn words(self) -> Seq<u32> {
        seq![self.theta] + self.mat@ + self.padding@
    }

    /// The record's words as a buffer image.
    pub fn to_words(&self) -> (v: Vec<u32>)
        ensures
            v@ == self.words(),
    {
        let mut v: Vec<u32> = Vec::new();
        v.push(self.theta);
        let mut i: usize = 0;
        while i < 9
            invariant
                i <= 9,
                v@ == seq![self.theta] + self.mat@.take(i as int),
            decreases 9 - i,
        {
            v.push(self.mat[i]);
            proof {
                assert(self.mat@.take(i + 1) =~= self.mat@.take(i as int).push(self.mat@[i as int]));
                assert(v@ =~= seq![self.theta] + self.mat@.take(i + 1));
            }
            i = i + 1;
        }
        let mut k: usize = 0;
        while k < 6
            invariant
                k <= 6,
                v@ == seq![self.theta] + self.mat@ + self.padding@.take(k as int),
            decreases 6 - k,
        {
            v.push(self.padding[k]);
            proof {
                assert(self.padding@.take(k + 1) =~= self.padding@.take(k as int).push(self.padding@[k as int]));
                assert(v@ =~= seq![self.theta] + self.mat@ + self.padding@.take(k + 1));
            }
            k = k + 1;
        }
        proof {
            assert(self.mat@.take(9) =~= self.mat@);
            assert(self.padding@.take(6) =~= self.padding@);
            assert(v@ =~= self.words());
        }
        v
    }
}

/// Builds the rotation-uniform record for an angle: the angle word and
/// the rotation's cosine and sine words, placed into the frozen layout
/// with zeroed padding.
pub fn create_rotation_matrix(theta: u32, rotation: Rot2) -> (m: ActionMatrix)
    ensures
        m.theta == theta,
        m.mat@ == rotation_y_words(rotation),
        m.padding@ == seq![WORD_ZERO, WORD_ZERO, WORD_ZERO, WORD_ZERO, WORD_ZERO, WORD_ZERO],
{
    let c = rotation.cos;
    let s = rotation.sin;
    let neg_s = crate::scalar::negate_word(s);
    let mat: [u32; 9] = [
        c, WORD_ZERO, neg_s,
        WORD_ZERO, WORD_ONE, WORD_ZERO,
        s, WORD_ZERO, c,
    ];
    let padding: [u32; 6] = [WORD_ZERO, WORD_ZERO, WORD_ZERO, WORD_ZERO, WORD_ZERO, WORD_ZERO];
    let m = ActionMatrix { theta, mat, padding };
    proof {
        assert(m.mat@ =~= rotation_y_words(rotation));
        assert(m.padding@ =~= seq![WORD_ZERO, WORD_ZERO, WORD_ZERO, WORD_ZERO, WORD_ZERO, WORD_ZERO]);
    }
    m
}

/// The sixteen words of the rotation record for a given angle word and
/// rotation: the angle, the matrix words, six zero padding words.
pub open spec fn rotation_record_words(theta: u32, rotation: Rot2) -> Seq<u32> {
    seq![theta] + rotation_y_words(rotation)
        + seq![WORD_ZERO, WORD_ZERO, WORD_ZERO, WORD_ZERO, WORD_ZERO, WORD_ZERO]
}

/// The eight words of the initial shading parameters: a circle at the
/// origin of radius one half, feather one tenth, opaque green.
pub open spec fn initial_feather_words() -> Seq<u32> {
    seq![WORD_ZERO, WORD_ZERO, WORD_HALF, WORD_TENTH, WORD_ZERO, WORD_ONE, WORD_ZERO, WORD_ONE]
}

/// The shading-parameter record: the circle center (two words), the
/// radius, the feather width, and the color (four words), eight words in
/// all.
#[derive(Clone, Copy, PartialEq, Eq, Debug)]
pub struct FeathersUniform {
    pub center: [u32; 2],
    pub radius: u32,
    pub feather: u32,
    pub color: [u32; 4],
}

impl FeathersUniform {
    /// The eight words of the record, in layout order.
    pub open spec fn words(self) -> Seq<u32> {
        seq![self.center@[0], self.center@[1], self.radius, self.feather]
            + self.color@
    }

    /// The initial shading state: a circle at the origin of radius one
    /// half, feather one tenth, opaque green.
    pub fn initial() -> (r: FeathersUniform)
        ensures
            r.center@ == seq![WORD_ZERO, WORD_ZERO],
            r.radius == WORD_HALF,
            r.feather == WORD_TENTH,
            r.color@ == seq![WORD_ZERO, WORD_ONE, WORD_ZERO, WORD_ONE],
    {
        let r = FeathersUniform {
            center: [WORD_ZERO, WORD_ZERO],
            radius: WORD_HALF,
            feather: WORD_TENTH,
            color: [WORD_ZERO, WORD_ONE, WORD_ZERO, WORD_ONE],
        };
        proof {
            assert(r.center@ =~= seq![WORD_ZERO, WORD_ZERO]);
            assert(r.color@ =~= seq![WORD_ZERO, WORD_ONE, WORD_ZERO, WORD_ONE]);
        }
        r
    }

    /// The record's words as a buffer image.
    pub fn to_words(&self) -> (v: Vec<u32>)
        ensures
            v@ == self.words(),
    {
        let mut v: Vec<u32> = Vec::new();
        v.push(self.center[0]);
        v.push(self.center[1]);
        v.push(self.radius);
        v.push(self.feather);
        v.push(self.color[0]);
        v.push(self.color[1]);
        v.push(self.color[2]);
        v.push(self.color[3]);
        proof {
            assert(v@ =~= self.words());
        }
        v
    }
}

/// The sixteen words, column-major, of the orthographic projection the
/// library uses: x is scaled by the inverse aspect ratio, y by one, and
/// depth maps the range minus one to one onto the unit interval, so the
/// diagonal is (inv_aspect, 1, -1/2, 1) with a depth shift of one half.
pub open spec fn ortho_words(inv_aspect: u32) -> Seq<u32> {
    seq![
        inv_aspect, WORD_ZERO, WORD_ZERO, WORD_ZERO,
        WORD_ZERO, WORD_ONE, WORD_ZERO, WORD_ZERO,
        WORD_ZERO, WORD_ZERO, WORD_NEG_HALF, WORD_ZERO,
        WORD_ZERO, WORD_ZERO, WORD_HALF, WORD_ONE,
    ]
}

/// Builds the projection-uniform image for a surface whose inverse aspect
/// ratio (height over width) has the given word, computed at the boundary.
pub fn create_ortho_project_matrix(inv_aspect: u32) -> (v: Vec<u32>)
    ensures
        v@ == ortho_words(inv_aspect),
{
    let mut v: Vec<u32> = Vec::new();
    v.push(inv_aspect);
    v.push(WORD_ZERO);
    v.push(WORD_ZERO);
    v.push(WORD_ZERO);
    v.push(WORD_ZERO);
    v.push(WORD_ONE);
    v.push(WORD_ZERO);
    v.push(WORD_ZERO);
    v.push(WORD_ZERO);
    v.push(WORD_ZERO);
    v.push(WORD_NEG_HALF);
    v.push(WORD_ZERO);
    v.push(WORD_ZERO);
    v.push(WORD_ZERO);
    v.push(WORD_HALF);
    v.push(WORD_ONE);
    proof {
        assert(v@ =~= ortho_words(inv_aspect));
    }
    v
}

/// A color with an alpha channel, one word per channel.
#[derive(Clone, Copy, PartialEq, Eq, Structural, Debug)]
pub struct Color4 {
    pub r: u32,
    pub g: u32,
    pub b: u32,
    pub a: u32,
}

/// Four gradient control points and their colors.
#[derive(Clone, Copy, PartialEq, Eq, Debug)]
pub struct FourGradient {
    pub points: [Point3; 4],
    pub point_colors: [Color4; 4],
}

/// The flattened gradient record: each point padded to four words, then
/// each color's four words, thirty-two words in all.
#[derive(Clone, Copy, PartialEq, Eq, Debug)]
pub struct FourGradientUniform {
    pub points: [u32; 16],
    pub point_colors: [u32; 16],
}

/// The sixteen words of four points, each padded with a trailing zero
/// word.
pub open spec fn padded_points_words(points: Seq<Point3>) -> Seq<u32> {
    seq![
        points[0].x, points[0].y, points[0].z, WORD_ZERO,
        points[1].x, points[1].y, points[1].z, WORD_ZERO,
        points[2].x, points[2].y, points[2].z, WORD_ZERO,
        points[3].x, points[3].y, points[3].z, WORD_ZERO,
    ]
}

/// The sixteen words of four colors.
pub open spec fn colors_words(colors: Seq<Color4>) -> Seq<u32> {
    seq![
        colors[0].r, colors[0].g, colors[0].b, colors[0].a,
        colors[1].r, colors[1].g, colors[1].b, colors[1].a,
        colors[2].r, colors[2].g, colors[2].b, colors[2].a,
        colors[3].r, colors[3].g, colors[3].b, colors[3].a,
    ]
}

impl FourGradient {
    /// The fixed gradient of the backdrop: four corner-ish points colored
    /// red, green, blue and white.
    pub fn random_four_points() -> (r: FourGradient)
        ensures
            r.points@ == seq![
                Point3 { x: WORD_NEG_FOUR_FIFTHS, y: WORD_FOUR_FIFTHS, z: WORD_ZERO },
                Point3 { x: WORD_TWO_FIFTHS, y: WORD_NINE_TENTHS, z: WORD_ZERO },
                Point3 { x: WORD_FOUR_FIFTHS, y: WORD_NEG_TWO_FIFTHS, z: WORD_ZERO },
                Point3 { x: WORD_NEG_SEVEN_TENTHS, y: WORD_NEG_SEVEN_TENTHS, z: WORD_ZERO },
            ],
            r.point_colors@ == seq![
                Color4 { r: WORD_ONE, g: WORD_ZERO, b: WORD_ZERO, a: WORD_ONE },
                Color4 { r: WORD_ZERO, g: WORD_ONE, b: WORD_ZERO, a: WORD_ONE },
                Color4 { r: WORD_ZERO, g: WORD_ZERO, b: WORD_ONE, a: WORD_ONE },
                Color4 { r: WORD_ONE, g: WORD_ONE, b: WORD_ONE, a: WORD_ONE },
            ],
    {
        let points: [Point3; 4] = [
            Point3 { x: WORD_NEG_FOUR_FIFTHS, y: WORD_FOUR_FIFTHS, z: WORD_ZERO },
            Point3 { x: WORD_TWO_FIFTHS, y: WORD_NINE_TENTHS, z: WORD_ZERO },
            Point3 { x: WORD_FOUR_FIFTHS, y: WORD_NEG_TWO_FIFTHS, z: WORD_ZERO },
            Point3 { x: WORD_NEG_SEVEN_TENTHS, y: WORD_NEG_SEVEN_TENTHS, z: WORD_ZERO },
        ];
        let point_colors: [Color4; 4] = [
            Color4 { r: WORD_ONE, g: WORD_ZERO, b: WORD_ZERO, a: WORD_ONE },
            Color4 { r: WORD_ZERO, g: WORD_ONE, b: WORD_ZERO, a: WORD_ONE },
            Color4 { r: WORD_ZERO, g: WORD_ZERO, b: WORD_ONE, a: WORD_ONE },
            Color4 { r: WORD_ONE, g: WORD_ONE, b: WORD_ONE, a: WORD_ONE },
        ];
        let r = FourGradient { points, point_colors };
        proof {
            assert(r.points@ =~= seq![
                Point3 { x: WORD_NEG_FOUR_FIFTHS, y: WORD_FOUR_FIFTHS, z: WORD_ZERO },
                Point3 { x: WORD_TWO_FIFTHS, y: WORD_NINE_TENTHS, z: WORD_ZERO },
                Point3 { x: WORD_FOUR_FIFTHS, y: WORD_NEG_TWO_FIFTHS, z: WORD_ZERO },
                Point3 { x: WORD_NEG_SEVEN_TENTHS, y: WORD_NEG_SEVEN_TENTHS, z: WORD_ZERO },
            ]);
            assert(r.point_colors@ =~= seq![
                Color4 { r: WORD_ONE, g: WORD_ZERO, b: WORD_ZERO, a: WORD_ONE },
                Color4 { r: WORD_ZERO, g: WORD_ONE, b: WORD_ZERO, a: WORD_ONE },
                Color4 { r: WORD_ZERO, g: WORD_ZERO, b: WORD_ONE, a: WORD_ONE },
                Color4 { r: WORD_ONE, g: WORD_ONE, b: WORD_ONE, a: WORD_ONE },
            ]);
        }
        r
    }

    /// Flattens the gradient into its uniform record.
    pub fn to_uniform(&self) -> (u: FourGradientUniform)
        ensures
            u.points@ == padded_points_words(self.points@),
            u.point_colors@ == colors_words(self.point_colors@),
    {
        let p = self.points;
        let c = self.point_colors;
        let points: [u32; 16] = [
            p[0].x, p[0].y, p[0].z, WORD_ZERO,
            p[1].x, p[1].y, p[1].z, WORD_ZERO,
            p[2].x, p[2].y, p[2].z, WORD_ZERO,
            p[3].x, p[3].y, p[3].z, WORD_ZERO,
        ];
        let point_colors: [u32; 16] = [
            c[0].r, c[0].g, c[0].b, c[0].a,
            c[1].r, c[1].g, c[1].b, c[1].a,
            c[2].r, c[2].g, c[2].b, c[2].a,
            c[3].r, c[3].g, c[3].b, c[3].a,
        ];
        let u = FourGradientUniform { points, point_colors };
        proof {
            assert(u.points@ =~= padded_points_words(self.points@));
            assert(u.point_colors@ =~= colors_words(self.point_colors@));
        }
        u
    }
}

} // verus!
