use vstd::prelude::*;
use crate::vertex::Vertex;

verus! {

/// The bit pattern of the machine epsilon of 32-bit IEEE 754 numbers, 2^-23.
pub const EPSILON_BITS: u32 = 0x3400_0000;

/// The bit pattern of positive infinity. The patterns above it, sign bit
/// aside, are no numbers.
pub const INFINITY_BITS: u32 = 0x7f80_0000;

/// The sign bit. Below it lie the patterns of the numbers that are not
/// negative.
pub const SIGN_BIT: u32 = 0x8000_0000;

/// The most segments that a circle can have: with one more, the indices of
/// its vertices would no longer fit in 16 bits.
pub const MAX_SEGMENTS: usize = 65535;

/// The number with the bit pattern `bits` is at most the machine epsilon:
/// it is a number, and it is negative or its magnitude is no larger than
/// that of the epsilon.
pub open spec fn at_most_epsilon(bits: u32) -> bool {
    let magnitude = bits % SIGN_BIT;
    &&& magnitude <= INFINITY_BITS
    &&& (bits >= SIGN_BIT || magnitude <= EPSILON_BITS)
}

/// A circle of this radius with this many segments is a single point.
pub open spec fn circle_is_point(radius: u32, num_vertices: nat) -> bool {
    num_vertices == 0 || at_most_epsilon(radius)
}

/// The indices of a circle of this radius with this many segments fit in 16
/// bits: it is a single point, or it has no more segments than they can tell
/// apart.
pub open spec fn circle_fits(radius: u32, num_vertices: nat) -> bool {
    circle_is_point(radius, num_vertices) || num_vertices <= MAX_SEGMENTS
}

/// Index `k` of a fan of `n` triangles round vertex 0 that closes on itself:
/// triangle `t` joins the centre to rim vertex `t + 1` and to the rim vertex
/// after it, which for the last triangle is rim vertex 1 again.
pub open spec fn closed_fan_index(n: nat, k: int) -> int {
    let t = k / 3;
    if k % 3 == 0 {
        0
    } else if k % 3 == 1 {
        t + 1
    } else if t + 1 == n {
        1
    } else {
        t + 2
    }
}

/// The indices of the circle: a closed fan of one triangle for each segment;
/// the single index 0 for a circle that is a single point.
pub open spec fn spec_circle_indices(radius: u32, num_vertices: nat) -> Seq<u16> {
    if circle_is_point(radius, num_vertices) {
        seq![0u16]
    } else {
        Seq::new(3 * num_vertices, |k: int| closed_fan_index(num_vertices, k) as u16)
    }
}

/// Index `k` of a fan of triangles round vertex 0 that stays open: triangle
/// `t` joins vertex 0 to the vertices `t + 1` and `t + 2`.
pub open spec fn open_fan_index(k: int) -> int {
    let t = k / 3;
    if k % 3 == 0 {
        0
    } else if k % 3 == 1 {
        t + 1
    } else {
        t + 2
    }
}

/// The indices that fill a convex polygon of `num_points` corners with
/// triangles: an open fan of `num_points - 2` triangles round corner 0.
pub open spec fn spec_polygon_indices(num_points: nat) -> Seq<u16> {
    Seq::new((3 * (num_points - 2)) as nat, |k: int| open_fan_index(k) as u16)
}

/// Says whether the number with the bit pattern `bits` is at most the
/// machine epsilon.
pub fn is_at_most_epsilon(bits: u32) -> (small: bool)
    ensures
        small == at_most_epsilon(bits),
{
    let magnitude = bits % SIGN_BIT;
    magnitude <= INFINITY_BITS && (bits >= SIGN_BIT || magnitude <= EPSILON_BITS)
}

/// The indices of a circle of radius `radius`, given by its bit pattern,
/// with `num_vertices` segments. Vertex 0 is the centre, and the vertices on
/// the rim follow it in the order in which they go round.
pub fn circle_indices(radius: u32, num_vertices: usize) -> (indices: Vec<u16>)
    requires
        circle_fits(radius, num_vertices as nat),
    ensures
        indices@ == spec_circle_indices(radius, num_vertices as nat),
{
    let mut indices: Vec<u16> = Vec::new();
    if num_vertices == 0 || is_at_most_epsilon(radius) {
        indices.push(0);
        assert(indices@ =~= seq![0u16]);
        return indices;
    }
    let ghost n = num_vertices as nat;
    let mut i: usize = 1;
    while i < num_vertices
        invariant
            1 <= i <= num_vertices <= MAX_SEGMENTS,
            n == num_vertices,
            indices@.len() == 3 * (i - 1),
            forall|k: int| 0 <= k < indices@.len() ==> indices@[k] == closed_fan_index(n, k) as u16,
        decreases num_vertices - i,
    {
        indices.push(0);
        indices.push(i as u16);
        indices.push(i as u16 + 1);
        i += 1;
    }
    indices.push(0);
    indices.push(num_vertices as u16);
    indices.push(1);
    assert(indices@ =~= spec_circle_indices(radius, n));
    indices
}

/// The vertices of the circle: the centre at the origin, then the vertices on
/// the rim as they are given; the centre alone for a circle that is a single
/// point.
pub open spec fn spec_circle_vertices(radius: u32, num_vertices: nat, rim: Seq<Vertex>) -> Seq<
    Vertex,
> {
    if circle_is_point(radius, num_vertices) {
        seq![Vertex::origin()]
    } else {
        seq![Vertex::origin()] + rim
    }
}

/// The geometry of a circle of radius `radius`, given by its bit pattern,
/// with `num_vertices` segments: the centre, then the vertices `rim` on its
/// rim in the order in which they go round, and a closed fan of triangles
/// from the centre. Where there is no segment, or the radius is at most the
/// machine epsilon, the circle is a single point.
pub fn build_circle(radius: u32, num_vertices: usize, rim: Vec<Vertex>) -> (geometry: (
    Vec<Vertex>,
    Vec<u16>,
))
    requires
        circle_fits(radius, num_vertices as nat),
    ensures
        geometry.0@ == spec_circle_vertices(radius, num_vertices as nat, rim@),
        geometry.1@ == spec_circle_indices(radius, num_vertices as nat),
{
    let indices = circle_indices(radius, num_vertices);
    let mut verts: Vec<Vertex> = Vec::new();
    verts.push(Vertex::new(0, 0));
    if num_vertices == 0 || is_at_most_epsilon(radius) {
        assert(verts@ =~= seq![Vertex::origin()]);
    } else {
        let ghost given = rim@;
        let mut rim = rim;
        verts.append(&mut rim);
        assert(verts@ =~= seq![Vertex::origin()] + given);
    }
    (verts, indices)
}

/// The indices that fill a convex polygon of `num_points` corners with
/// triangles.
pub fn polygon_indices(num_points: u16) -> (indices: Vec<u16>)
    requires
        num_points >= 2,
    ensures
        indices@ == spec_polygon_indices(num_points as nat),
{
    let mut indices: Vec<u16> = Vec::new();
    let mut i: u16 = 1;
    while i < num_points - 1
        invariant
            1 <= i <= num_points - 1,
            indices@.len() == 3 * (i - 1),
            forall|k: int| 0 <= k < indices@.len() ==> indices@[k] == open_fan_index(k) as u16,
        decreases num_points - i,
    {
        indices.push(0);
        indices.push(i);
        indices.push(i + 1);
        i += 1;
    }
    assert(indices@ =~= spec_polygon_indices(num_points as nat));
    indices
}

} // verus!
