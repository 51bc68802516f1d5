//! Integer core of the Improved Perlin Noise algorithm.
//!
//! Gradient noise maps a 3D sample coordinate to a scalar by hashing the
//! corners of the unit lattice cube around the sample and blending gradient
//! contributions along each axis.  Everything in that pipeline that works on
//! integers lives here: the fixed permutation table, the lookup `p`, the
//! wrap of a floored coordinate into a cell index, the two-stage hashing of
//! the eight cube corners, and the decoding of a corner hash into one of the
//! twelve cube-edge gradient directions.  A caller supplies the
//! floating-point glue on top: the fade curve, the dot products of the
//! selected directions with the corner offsets, and the trilinear blend.

use vstd::prelude::*;

verus! {

/// Table of permutations: a fixed bijection on `0..=255`, used as a
/// reproducible pseudo-random hash from lattice-cell indices to gradient
/// selectors.  `lemma_permutation_table_bijective` proves that every value
/// in `0..=255` appears exactly once.
pub const P: [u8; 256] = [
    151, 160, 137, 91, 90, 15, 131, 13, 201, 95, 96, 53, 194, 233, 7, 225,
    140, 36, 103, 30, 69, 142, 8, 99, 37, 240, 21, 10, 23, 190, 6, 148,
    247, 120, 234, 75, 0, 26, 197, 62, 94, 252, 219, 203, 117, 35, 11, 32,
    57, 177, 33, 88, 237, 149, 56, 87, 174, 20, 125, 136, 171, 168, 68, 175,
    74, 165, 71, 134, 139, 48, 27, 166, 77, 146, 158, 231, 83, 111, 229, 122,
    60, 211, 133, 230, 220, 105, 92, 41, 55, 46, 245, 40, 244, 102, 143, 54,
    65, 25, 63, 161, 1, 216, 80, 73, 209, 76, 132, 187, 208, 89, 18, 169,
    200, 196, 135, 130, 116, 188, 159, 86, 164, 100, 109, 198, 173, 186, 3, 64,
    52, 217, 226, 250, 124, 123, 5, 202, 38, 147, 118, 126, 255, 82, 85, 212,
    207, 206, 59, 227, 47, 16, 58, 17, 182, 189, 28, 42, 223, 183, 170, 213,
    119, 248, 152, 2, 44, 154, 163, 70, 221, 153, 101, 155, 167, 43, 172, 9,
    129, 22, 39, 253, 19, 98, 108, 110, 79, 113, 224, 232, 178, 185, 112, 104,
    218, 246, 97, 228, 251, 34, 242, 193, 238, 210, 144, 12, 191, 179, 162, 241,
    81, 51, 145, 235, 249, 14, 239, 107, 49, 192, 214, 31, 181, 199, 106, 157,
    184, 84, 204, 176, 115, 121, 50, 45, 127, 4, 150, 254, 138, 236, 205, 93,
    222, 114, 67, 29, 24, 72, 243, 141, 128, 195, 78, 66, 215, 61, 156, 180,
];

/// Inverse of `P`: `P[P_INV[v]] == v` for every `v` in `0..=255`.  Used only
/// to witness the bijectivity of the permutation table.
const P_INV: [u8; 256] = [
    36, 100, 163, 126, 233, 134, 30, 14, 22, 175, 27, 46, 203, 7, 213, 5,
    149, 151, 110, 180, 57, 26, 177, 28, 244, 97, 37, 70, 154, 243, 19, 219,
    47, 50, 197, 45, 17, 24, 136, 178, 91, 87, 155, 173, 164, 231, 89, 148,
    69, 216, 230, 209, 128, 11, 95, 88, 54, 48, 150, 146, 80, 253, 39, 98,
    127, 96, 251, 242, 62, 20, 167, 66, 245, 103, 64, 35, 105, 72, 250, 184,
    102, 208, 141, 76, 225, 142, 119, 55, 51, 109, 4, 3, 86, 239, 40, 9,
    10, 194, 181, 23, 121, 170, 93, 18, 191, 85, 222, 215, 182, 122, 183, 77,
    190, 185, 241, 228, 116, 44, 138, 160, 33, 229, 79, 133, 132, 58, 139, 232,
    248, 176, 115, 6, 106, 82, 67, 114, 59, 2, 236, 68, 16, 247, 21, 94,
    202, 210, 73, 137, 31, 53, 234, 0, 162, 169, 165, 171, 254, 223, 74, 118,
    1, 99, 206, 166, 120, 65, 71, 172, 61, 111, 158, 60, 174, 124, 56, 63,
    227, 49, 188, 205, 255, 220, 152, 157, 224, 189, 125, 107, 117, 153, 29, 204,
    217, 199, 12, 249, 113, 38, 123, 221, 112, 8, 135, 43, 226, 238, 145, 144,
    108, 104, 201, 81, 143, 159, 218, 252, 101, 129, 192, 42, 84, 168, 240, 156,
    186, 15, 130, 147, 195, 78, 83, 75, 187, 13, 34, 211, 237, 52, 200, 214,
    25, 207, 198, 246, 92, 90, 193, 32, 161, 212, 131, 196, 41, 179, 235, 140,
];

/// The permutation table entry for index `i`, with `i` wrapped modulo the
/// table length.  This is the specification-level meaning of `p`.
pub open spec fn perm(i: int) -> int {
    P@[i % 256] as int
}

/// Whether some index of the permutation table holds the value `v`.
pub open spec fn table_contains(v: int) -> bool {
    exists|i: int| 0 <= i < 256 && #[trigger] perm(i) == v
}

/// The permutation table, viewed as a sequence of 256 entries, contains each
/// value in `0..=255` exactly once: the entries are in range, no two indices
/// hold the same value, and every value is hit.
#[verifier::rlimit(100)]
#[verifier::spinoff_prover]
pub proof fn lemma_permutation_table_bijective()
    ensures
        forall|i: int| 0 <= i < 256 ==> 0 <= #[trigger] perm(i) < 256,
        forall|i: int, j: int|
            0 <= i < 256 && 0 <= j < 256 && #[trigger] perm(i) == #[trigger] perm(j) ==> i == j,
        forall|v: int| 0 <= v < 256 ==> #[trigger] table_contains(v),
{
    assert(forall|i: int| 0 <= i < 256 ==> P_INV@[P@[i] as int] == i);
    assert(forall|v: int| 0 <= v < 256 ==> P@[P_INV@[v] as int] == v);
    assert forall|i: int, j: int|
        0 <= i < 256 && 0 <= j < 256 && perm(i) == perm(j) implies i == j by {
        assert(P_INV@[P@[i] as int] == i);
        assert(P_INV@[P@[j] as int] == j);
    }
    assert forall|v: int| 0 <= v < 256 implies #[trigger] table_contains(v) by {
        let w = P_INV@[v] as int;
        assert(perm(w) == v);
    }
}

/// Look up an item from the table of permutations, wrapping the index
/// modulo the table length.
pub fn p(i: i32) -> (r: i32)
    ensures
        r == perm(i as int),
        0 <= r < 256,
{
    let idx: usize = i.checked_rem_euclid(256).unwrap() as usize;
    P[idx] as i32
}

/// Wrap the (already floored) integer part of a sample coordinate into a
/// lattice-cell index in `0..=255`.
pub fn cell_index(i: i32) -> (r: i32)
    ensures
        r == (i as int) % 256,
        0 <= r < 256,
{
    i.checked_rem_euclid(256).unwrap()
}

/// The hash of one corner of the unit lattice cube whose lowest corner has
/// cell indices `(xc, yc, zc)`; the flags `dx`, `dy`, `dz` are 0 for the
/// near side and 1 for the far side on each axis.  Two table lookups per
/// axis decorrelate the three axes with a single 256-entry table.
pub open spec fn corner_hash(xc: int, yc: int, zc: int, dx: int, dy: int, dz: int) -> int {
    perm(perm(perm(xc + dx) + yc + dy) + zc + dz)
}

/// Hashes of the eight corners of one unit lattice cube.  The field name
/// gives the y side (`a` near, `b` far) then the x side (`a` near, `b`
/// far), with a `1` suffix for the far z side, following the classic
/// naming of the reference algorithm.
#[derive(Clone, Copy, Debug, PartialEq, Eq, Structural)]
pub struct CornerHashes {
    /// Corner (0, 0, 0).
    pub aa: i32,
    /// Corner (1, 0, 0).
    pub ba: i32,
    /// Corner (0, 1, 0).
    pub ab: i32,
    /// Corner (1, 1, 0).
    pub bb: i32,
    /// Corner (0, 0, 1).
    pub aa1: i32,
    /// Corner (1, 0, 1).
    pub ba1: i32,
    /// Corner (0, 1, 1).
    pub ab1: i32,
    /// Corner (1, 1, 1).
    pub bb1: i32,
}

/// Form the hash values for the eight corners of the unit cube at cell
/// `(xc, yc, zc)` by composing permutation-table lookups: look up the x
/// index (and x index + 1), add the y index (or + 1), look that up again,
/// add the z index (or + 1), and look the result up a final time.
pub fn corner_hashes(xc: i32, yc: i32, zc: i32) -> (r: CornerHashes)
    requires
        0 <= xc < 256,
        0 <= yc < 256,
        0 <= zc < 256,
    ensures
        r.aa == corner_hash(xc as int, yc as int, zc as int, 0, 0, 0),
        r.ba == corner_hash(xc as int, yc as int, zc as int, 1, 0, 0),
        r.ab == corner_hash(xc as int, yc as int, zc as int, 0, 1, 0),
        r.bb == corner_hash(xc as int, yc as int, zc as int, 1, 1, 0),
        r.aa1 == corner_hash(xc as int, yc as int, zc as int, 0, 0, 1),
        r.ba1 == corner_hash(xc as int, yc as int, zc as int, 1, 0, 1),
        r.ab1 == corner_hash(xc as int, yc as int, zc as int, 0, 1, 1),
        r.bb1 == corner_hash(xc as int, yc as int, zc as int, 1, 1, 1),
        0 <= r.aa < 256 && 0 <= r.ba < 256 && 0 <= r.ab < 256 && 0 <= r.bb < 256,
        0 <= r.aa1 < 256 && 0 <= r.ba1 < 256 && 0 <= r.ab1 < 256 && 0 <= r.bb1 < 256,
{
    let a = p(xc) + yc;
    let aa = p(a) + zc;
    let ab = p(a + 1) + zc;
    let b = p(xc + 1) + yc;
    let ba = p(b) + zc;
    let bb = p(b + 1) + zc;
    CornerHashes {
        aa: p(aa),
        ba: p(ba),
        ab: p(ab),
        bb: p(bb),
        aa1: p(aa + 1),
        ba1: p(ba + 1),
        ab1: p(ab + 1),
        bb1: p(bb + 1),
    }
}

/// One of the three coordinate axes of a sample offset.
#[derive(Clone, Copy, Debug, PartialEq, Eq, Structural)]
pub enum Axis {
    /// The x component.
    X,
    /// The y component.
    Y,
    /// The z component.
    Z,
}

/// A gradient direction decoded from the low four bits of a corner hash: the
/// gradient's dot product with an offset `(x, y, z)` is the sum of the two
/// selected, possibly negated, offset components.  Since the two axes always
/// differ, the direction is one of the twelve cube-edge midpoint directions.
#[derive(Clone, Copy, Debug, PartialEq, Eq, Structural)]
pub struct GradDir {
    /// Axis of the first selected component.
    pub u_axis: Axis,
    /// Whether the first component enters the sum negated.
    pub u_negated: bool,
    /// Axis of the second selected component.
    pub v_axis: Axis,
    /// Whether the second component enters the sum negated.
    pub v_negated: bool,
}

/// The low four bits of a corner hash, which select the gradient direction.
pub open spec fn grad_hash(hash: int) -> int {
    hash % 16
}

/// Axis selected for the first gradient component.
pub open spec fn grad_u_axis(hash: int) -> Axis {
    if grad_hash(hash) < 8 {
        Axis::X
    } else {
        Axis::Y
    }
}

/// Axis selected for the second gradient component.
pub open spec fn grad_v_axis(hash: int) -> Axis {
    let h = grad_hash(hash);
    if h < 4 {
        Axis::Y
    } else if h == 12 || h == 14 {
        Axis::X
    } else {
        Axis::Z
    }
}

/// Whether the first gradient component is negated (bit 0 of the hash).
pub open spec fn grad_u_negated(hash: int) -> bool {
    grad_hash(hash) % 2 == 1
}

/// Whether the second gradient component is negated (bit 1 of the hash).
pub open spec fn grad_v_negated(hash: int) -> bool {
    (grad_hash(hash) / 2) % 2 == 1
}

/// Decode a corner hash into its gradient direction: the low four bits pick
/// which two of the three offset components participate and with which
/// signs.  The two selected axes always differ, so the decoded direction is
/// one of the twelve cube-edge midpoint directions.
pub fn grad_select(hash: i32) -> (r: GradDir)
    ensures
        r.u_axis == grad_u_axis(hash as int),
        r.v_axis == grad_v_axis(hash as int),
        r.u_negated == grad_u_negated(hash as int),
        r.v_negated == grad_v_negated(hash as int),
        r.u_axis != r.v_axis,
{
    let h = hash.checked_rem_euclid(16).unwrap();
    let u_axis = if h < 8 {
        Axis::X
    } else {
        Axis::Y
    };
    let v_axis = if h < 4 {
        Axis::Y
    } else if h == 12 || h == 14 {
        Axis::X
    } else {
        Axis::Z
    };
    let u_negated = h % 2 == 1;
    let v_negated = (h / 2) % 2 == 1;
    GradDir { u_axis, u_negated, v_axis, v_negated }
}

} // verus!
