//! Geometry algorithms: decoding polygon boundaries from flattened index
//! arrays, and reducing a control-point stream to a bounding box.

use vstd::prelude::*;

use crate::binary64::{key, lt_bits, is_nan_bits, spec_is_nan};
use crate::scene::PointBits;
use crate::strutil::{decimal_usize, spec_decimal};

verus! {

/// A fatal geometry error: the file is malformed, so the whole file fails
/// rather than accumulating a diagnostic.
#[derive(Clone, Copy, PartialEq, Eq, Structural, Debug)]
pub enum GeometryError {
    /// A control point coordinate is a NaN and cannot be ordered.
    NonFiniteCoordinate,
    /// The index array ended in the middle of a polygon: the run starting at
    /// `start` of an array of `len` indices has no end marker.
    IncompletePolygon { start: usize, len: usize },
}

impl GeometryError {
    /// A display line for the error.
    pub fn describe(&self) -> (r: String)
        ensures
            r@ == spec_describe_geometry_error(*self),
    {
        match self {
            GeometryError::NonFiniteCoordinate => {
                let s = String::from_str(
                    "A mesh control point has a non-finite (NaN) coordinate.",
                );
                s
            },
            GeometryError::IncompletePolygon { start, len } => {
                let mut s = String::from_str("Incomplete polygon found: index_start=");
                s.append(decimal_usize(*start).as_str());
                s.append(", len=");
                s.append(decimal_usize(*len).as_str());
                proof {
                    assert(s@ =~= spec_describe_geometry_error(*self));
                }
                s
            },
        }
    }
}

/// The display line for a [`GeometryError`].
pub open spec fn spec_describe_geometry_error(e: GeometryError) -> Seq<char> {
    match e {
        GeometryError::NonFiniteCoordinate => {
            "A mesh control point has a non-finite (NaN) coordinate."@
        },
        GeometryError::IncompletePolygon { start, len } => {
            "Incomplete polygon found: index_start="@ + spec_decimal(start as int) + ", len="@
                + spec_decimal(len as int)
        },
    }
}

/// Decodes the sizes of the polygons encoded in `idx`, `run` vertices into the
/// current polygon.  Every index belongs to a polygon; a negative index (the
/// one's complement of the true index) is the final vertex of its polygon.
/// `None` when the array ends in the middle of a polygon.
pub open spec fn spec_poly_sizes(idx: Seq<i64>, run: int) -> Option<Seq<int>>
    decreases idx.len(),
{
    if idx.len() == 0 {
        if run == 0 {
            Option::Some(Seq::empty())
        } else {
            Option::None
        }
    } else if idx[0] >= 0 {
        spec_poly_sizes(idx.skip(1), run + 1)
    } else {
        match spec_poly_sizes(idx.skip(1), 0) {
            Option::Some(rest) => Option::Some(seq![run + 1] + rest),
            Option::None => Option::None,
        }
    }
}

/// The polygon sizes encoded in a flattened index array, boundary-marked by
/// negative (one's complement) final vertices; `None` for an incomplete final
/// polygon.
pub open spec fn spec_decode(idx: Seq<i64>) -> Option<Seq<int>> {
    spec_poly_sizes(idx, 0)
}

/// Scans the flattened index array left to right and returns the run length of
/// each polygon, a run ending at each negative index.  An array that ends
/// mid-run is malformed: the error carries where the unterminated run began.
pub fn decode_polygon_sizes(indices: &Vec<i64>) -> (r: Result<Vec<usize>, GeometryError>)
    ensures
        match r {
            Result::Ok(sizes) => spec_decode(indices@) == Option::Some(
                sizes@.map_values(|s: usize| s as int),
            ),
            Result::Err(e) => {
                &&& spec_decode(indices@) is None
                &&& e matches GeometryError::IncompletePolygon { start, len }
                &&& len == indices@.len()
                &&& start < len
                &&& forall|t: int| start <= t < len ==> indices@[t] >= 0
                &&& (start == 0 || indices@[start - 1] < 0)
            },
        },
{
    let n = indices.len();
    let mut sizes: Vec<usize> = Vec::new();
    let mut i: usize = 0;
    let mut run: usize = 0;
    let mut start: usize = 0;
    proof {
        assert(indices@.skip(0) =~= indices@);
    }
    while i < n
        invariant
            n == indices@.len(),
            i <= n,
            start <= i,
            run == i - start,
            forall|t: int| start <= t < i ==> indices@[t] >= 0,
            start == 0 || indices@[start - 1] < 0,
            match spec_poly_sizes(indices@.skip(i as int), run as int) {
                Option::Some(rest) => spec_decode(indices@) == Option::Some(
                    sizes@.map_values(|s: usize| s as int) + rest,
                ),
                Option::None => spec_decode(indices@) is None,
            },
        decreases n - i,
    {
        proof {
            assert(indices@.skip(i as int)[0] == indices@[i as int]);
            assert(indices@.skip(i as int).skip(1) =~= indices@.skip(i as int + 1));
        }
        let ghost old_sizes = sizes@;
        let v = indices[i];
        if v >= 0 {
            run += 1;
        } else {
            sizes.push(run + 1);
            proof {
                assert(sizes@.map_values(|s: usize| s as int) =~= old_sizes.map_values(
                    |s: usize| s as int,
                ) + seq![run + 1int]);
            }
            run = 0;
            start = i + 1;
        }
        i += 1;
        proof {
            match spec_poly_sizes(indices@.skip(i as int), run as int) {
                Option::Some(rest) => {
                    assert(old_sizes.map_values(|s: usize| s as int) + (seq![
                        (i - start) as int,
                    ] + rest) =~= old_sizes.map_values(|s: usize| s as int) + seq![
                        (i - start) as int,
                    ] + rest);
                },
                Option::None => {},
            }
        }
    }
    proof {
        assert(indices@.skip(n as int) =~= Seq::<i64>::empty());
    }
    if run > 0 {
        Err(GeometryError::IncompletePolygon { start, len: n })
    } else {
        proof {
            assert(sizes@.map_values(|s: usize| s as int) + Seq::<int>::empty() =~= sizes@
                .map_values(|s: usize| s as int));
        }
        Ok(sizes)
    }
}

/// The distinct polygon sizes larger than three, in first-occurrence order.
pub open spec fn spec_oversized(sizes: Seq<int>) -> Seq<int>
    decreases sizes.len(),
{
    if sizes.len() == 0 {
        Seq::empty()
    } else {
        let rest = spec_oversized(sizes.drop_last());
        if sizes.last() > 3 && !rest.contains(sizes.last()) {
            rest.push(sizes.last())
        } else {
            rest
        }
    }
}

/// Collects the distinct polygon sizes larger than three, in first-occurrence
/// order.
pub fn oversized_polygon_sizes(sizes: &Vec<usize>) -> (r: Vec<usize>)
    ensures
        r@.map_values(|s: usize| s as int) == spec_oversized(
            sizes@.map_values(|s: usize| s as int),
        ),
{
    let mut r: Vec<usize> = Vec::new();
    let mut i: usize = 0;
    proof {
        assert(sizes@.map_values(|s: usize| s as int).take(0) =~= Seq::<int>::empty());
    }
    while i < sizes.len()
        invariant
            i <= sizes@.len(),
            r@.map_values(|s: usize| s as int) == spec_oversized(
                sizes@.map_values(|s: usize| s as int).take(i as int),
            ),
        decreases sizes@.len() - i,
    {
        let ghost sv = sizes@.map_values(|s: usize| s as int);
        let ghost old_r = r@;
        let s = sizes[i];
        if s > 3 && !contains_usize(&r, s) {
            r.push(s);
            proof {
                assert(r@.map_values(|s: usize| s as int) =~= old_r.map_values(
                    |s: usize| s as int,
                ).push(s as int));
            }
        }
        i += 1;
        proof {
            assert(sv.take(i as int).drop_last() =~= sv.take(i as int - 1));
            assert(sv.take(i as int).last() == sv[i - 1]);
            // membership transfers between the usize vector and its int image
            assert(forall|x: usize| old_r.contains(x) ==> old_r.map_values(
                |s: usize| s as int,
            ).contains(x as int)) by {
                assert forall|x: usize| old_r.contains(x) implies old_r.map_values(
                    |s: usize| s as int,
                ).contains(x as int) by {
                    let j = choose|j: int| 0 <= j < old_r.len() && old_r[j] == x;
                    assert(old_r.map_values(|s: usize| s as int)[j] == x as int);
                };
            };
            assert(forall|x: usize| old_r.map_values(|s: usize| s as int).contains(x as int)
                ==> old_r.contains(x)) by {
                assert forall|x: usize| old_r.map_values(|s: usize| s as int).contains(
                    x as int,
                ) implies old_r.contains(x) by {
                    let m = old_r.map_values(|s: usize| s as int);
                    let j = choose|j: int| 0 <= j < m.len() && m[j] == x as int;
                    assert(old_r[j] as int == x as int);
                    assert(old_r[j] == x);
                };
            };
        }
    }
    proof {
        let sv = sizes@.map_values(|s: usize| s as int);
        assert(sv.take(sv.len() as int) =~= sv);
    }
    r
}

/// A run of `k` plain (non-marker) indices.
pub open spec fn spec_zero_run(k: int) -> Seq<i64> {
    Seq::new(k as nat, |i: int| 0i64)
}

/// A flattened index array that encodes the given polygon sizes: each polygon
/// contributes `size - 1` plain indices and one end marker (`!0 == -1`).
pub open spec fn spec_encode(sizes: Seq<int>) -> Seq<i64>
    decreases sizes.len(),
{
    if sizes.len() == 0 {
        Seq::empty()
    } else {
        spec_zero_run(sizes[0] - 1) + seq![-1i64] + spec_encode(sizes.skip(1))
    }
}

proof fn lemma_zero_run_decode(k: int, idx: Seq<i64>, run: int)
    requires
        k >= 0,
    ensures
        spec_poly_sizes(spec_zero_run(k) + idx, run) == spec_poly_sizes(idx, run + k),
    decreases k,
{
    if k == 0 {
        assert(spec_zero_run(0) + idx =~= idx);
    } else {
        let whole = spec_zero_run(k) + idx;
        assert(whole.len() > 0);
        assert(whole[0] == 0i64);
        assert(whole.skip(1) =~= spec_zero_run(k - 1) + idx);
        lemma_zero_run_decode(k - 1, idx, run + 1);
    }
}

/// Decoding is a left inverse of encoding: an index array built from a list of
/// polygon sizes (every polygon having at least its final, marker vertex)
/// decodes back to exactly that list of sizes.
pub proof fn lemma_polygon_round_trip(sizes: Seq<int>)
    requires
        forall|i: int| 0 <= i < sizes.len() ==> sizes[i] >= 1,
    ensures
        spec_decode(spec_encode(sizes)) == Option::Some(sizes),
    decreases sizes.len(),
{
    if sizes.len() == 0 {
        assert(spec_encode(sizes).len() == 0);
    } else {
        let s0 = sizes[0];
        let rest = sizes.skip(1);
        let tail = seq![-1i64] + spec_encode(rest);
        assert(spec_encode(sizes) =~= spec_zero_run(s0 - 1) + tail);
        lemma_zero_run_decode(s0 - 1, tail, 0);
        assert(tail[0] == -1i64);
        assert(tail.skip(1) =~= spec_encode(rest));
        lemma_polygon_round_trip(rest);
        assert(seq![s0] + rest =~= sizes);
    }
}

/// Builds a flattened index array that encodes the given polygon sizes, each
/// polygon as plain zero indices closed by a `-1` end marker.
pub fn encode_polygon_sizes(sizes: &Vec<usize>) -> (r: Vec<i64>)
    requires
        forall|i: int| 0 <= i < sizes@.len() ==> 1 <= #[trigger] sizes@[i],
    ensures
        r@ == spec_encode(sizes@.map_values(|s: usize| s as int)),
{
    let ghost sv = sizes@.map_values(|s: usize| s as int);
    let mut r: Vec<i64> = Vec::new();
    let mut i: usize = 0;
    proof {
        assert(sv.take(0) =~= Seq::<int>::empty());
    }
    while i < sizes.len()
        invariant
            i <= sizes@.len(),
            sv == sizes@.map_values(|s: usize| s as int),
            forall|t: int| 0 <= t < sizes@.len() ==> 1 <= #[trigger] sizes@[t],
            r@ == spec_encode(sv.take(i as int)),
        decreases sizes@.len() - i,
    {
        let s = sizes[i];
        let ghost base = r@;
        let mut j: usize = 0;
        while j < s - 1
            invariant
                j <= s - 1,
                i < sizes@.len(),
                s == sizes@[i as int],
                r@ == base + spec_zero_run(j as int),
            decreases s - j,
        {
            r.push(0i64);
            proof {
                assert(r@ =~= base + spec_zero_run(j as int + 1));
            }
            j += 1;
        }
        r.push(-1i64);
        i += 1;
        proof {
            lemma_encode_append(sv.take(i as int - 1), seq![s as int]);
            assert(sv.take(i as int) =~= sv.take(i as int - 1) + seq![s as int]);
            assert(seq![s as int].skip(1) =~= Seq::<int>::empty());
            assert(spec_encode(seq![s as int].skip(1)) =~= Seq::<i64>::empty());
            assert(spec_encode(seq![s as int]) =~= spec_zero_run(s as int - 1) + seq![-1i64]);
            assert(r@ =~= spec_encode(sv.take(i as int)));
        }
    }
    proof {
        assert(sv.take(sv.len() as int) =~= sv);
    }
    r
}

proof fn lemma_encode_append(a: Seq<int>, b: Seq<int>)
    ensures
        spec_encode(a + b) == spec_encode(a) + spec_encode(b),
    decreases a.len(),
{
    if a.len() == 0 {
        assert(a + b =~= b);
        assert(spec_encode(a) + spec_encode(b) =~= spec_encode(b));
    } else {
        assert((a + b)[0] == a[0]);
        assert((a + b).skip(1) =~= a.skip(1) + b);
        lemma_encode_append(a.skip(1), b);
        assert(spec_encode(a + b) =~= spec_encode(a) + spec_encode(b));
    }
}

/// Linear membership test.
pub fn contains_usize(v: &Vec<usize>, x: usize) -> (r: bool)
    ensures
        r == v@.contains(x),
{
    let mut i: usize = 0;
    while i < v.len()
        invariant
            i <= v@.len(),
            forall|t: int| 0 <= t < i ==> v@[t] != x,
        decreases v@.len() - i,
    {
        if v[i] == x {
            return true;
        }
        i += 1;
    }
    false
}

/// Coordinate `a` (0, 1 or 2) of a control point.
pub open spec fn axis_bits(p: PointBits, a: int) -> u64 {
    if a == 0 {
        p.x
    } else if a == 1 {
        p.y
    } else {
        p.z
    }
}

/// Some coordinate of some point in the stream is a NaN.
pub open spec fn spec_has_nan(points: Seq<PointBits>) -> bool {
    exists|j: int, a: int|
        0 <= j < points.len() && 0 <= a < 3 && spec_is_nan(#[trigger] axis_bits(points[j], a))
}

/// Component-wise bounds of a control-point stream.
#[derive(Clone, Copy, Debug)]
pub struct BoundsBits {
    pub min: PointBits,
    pub max: PointBits,
}

/// Reduces the control-point stream to component-wise minimum and maximum
/// points under the binary64 order, rejecting any NaN coordinate as a fatal
/// error, and yielding `None` for an empty stream.
///
/// For every axis the reduced minimum key is no greater than the reduced
/// maximum key: the bounding box is never inverted.
pub fn mesh_bounds(points: &Vec<PointBits>) -> (r: Result<Option<BoundsBits>, GeometryError>)
    ensures
        match r {
            Result::Err(e) => spec_has_nan(points@) && e == GeometryError::NonFiniteCoordinate,
            Result::Ok(ob) => !spec_has_nan(points@) && match ob {
                Option::None => points@.len() == 0,
                Option::Some(b) => {
                    &&& points@.len() > 0
                    &&& forall|j: int, a: int|
                        0 <= j < points@.len() && 0 <= a < 3 ==> key(axis_bits(b.min, a)) <= key(
                            #[trigger] axis_bits(points@[j], a),
                        ) <= key(axis_bits(b.max, a))
                    &&& forall|a: int|
                        0 <= a < 3 ==> exists|j: int|
                            0 <= j < points@.len() && #[trigger] axis_bits(b.min, a) == axis_bits(
                                points@[j],
                                a,
                            )
                    &&& forall|a: int|
                        0 <= a < 3 ==> exists|j: int|
                            0 <= j < points@.len() && #[trigger] axis_bits(b.max, a) == axis_bits(
                                points@[j],
                                a,
                            )
                    &&& forall|a: int|
                        0 <= a < 3 ==> key(#[trigger] axis_bits(b.min, a)) <= key(
                            axis_bits(b.max, a),
                        )
                },
            },
        },
{
    let n = points.len();
    if n == 0 {
        return Ok(None);
    }
    let mut min = PointBits { x: points[0].x, y: points[0].y, z: points[0].z };
    let mut max = PointBits { x: points[0].x, y: points[0].y, z: points[0].z };
    let mut i: usize = 0;
    while i < n
        invariant
            n == points@.len(),
            0 < n,
            i <= n,
            forall|j: int, a: int|
                0 <= j < i && 0 <= a < 3 ==> !spec_is_nan(#[trigger] axis_bits(points@[j], a)),
            forall|j: int, a: int|
                0 <= j < i && 0 <= a < 3 ==> key(axis_bits(min, a)) <= key(
                    #[trigger] axis_bits(points@[j], a),
                ) <= key(axis_bits(max, a)),
            i > 0 ==> forall|a: int|
                0 <= a < 3 ==> exists|j: int|
                    0 <= j < i && #[trigger] axis_bits(min, a) == axis_bits(points@[j], a),
            i > 0 ==> forall|a: int|
                0 <= a < 3 ==> exists|j: int|
                    0 <= j < i && #[trigger] axis_bits(max, a) == axis_bits(points@[j], a),
            i == 0 ==> min == points@[0] && max == points@[0],
        decreases n - i,
    {
        let p = PointBits { x: points[i].x, y: points[i].y, z: points[i].z };
        if is_nan_bits(p.x) || is_nan_bits(p.y) || is_nan_bits(p.z) {
            proof {
                assert(spec_is_nan(axis_bits(points@[i as int], 0)) || spec_is_nan(
                    axis_bits(points@[i as int], 1),
                ) || spec_is_nan(axis_bits(points@[i as int], 2)));
            }
            return Err(GeometryError::NonFiniteCoordinate);
        }
        let ghost old_min = min;
        let ghost old_max = max;
        if lt_bits(p.x, min.x) {
            min.x = p.x;
        }
        if lt_bits(p.y, min.y) {
            min.y = p.y;
        }
        if lt_bits(p.z, min.z) {
            min.z = p.z;
        }
        if lt_bits(max.x, p.x) {
            max.x = p.x;
        }
        if lt_bits(max.y, p.y) {
            max.y = p.y;
        }
        if lt_bits(max.z, p.z) {
            max.z = p.z;
        }
        proof {
            assert forall|a: int| 0 <= a < 3 implies axis_bits(min, a) == axis_bits(
                points@[i as int],
                a,
            ) || axis_bits(min, a) == axis_bits(old_min, a) by {};
            assert forall|a: int| 0 <= a < 3 implies axis_bits(max, a) == axis_bits(
                points@[i as int],
                a,
            ) || axis_bits(max, a) == axis_bits(old_max, a) by {};
        }
        i += 1;
    }
    Ok(Some(BoundsBits { min, max }))
}

} // verus!
