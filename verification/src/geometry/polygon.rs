use vstd::prelude::*;

verus! {

/// The largest number of distinct values a `u16` index can take.
pub const INDEX_RANGE: usize = 65536;

/// A vertex number as it is stored in a `u16` index: the number modulo 2^16.
pub open spec fn wrap16(v: int) -> u16 {
    (v % 65536) as u16
}

/// The index list of a fan of `k` triangles around vertex 0: triangle `t`
/// is `(0, t + 1, t + 2)`, each number stored as a `u16`.
pub open spec fn fan_indices(k: nat) -> Seq<u16>
    decreases k,
{
    if k == 0 {
        Seq::empty()
    } else {
        fan_indices((k - 1) as nat) + seq![0u16, wrap16(k as int), wrap16(k + 1int)]
    }
}

/// The three indices of triangle `t` in a flat index list.
pub open spec fn triangle(s: Seq<u16>, t: int) -> (u16, u16, u16) {
    (s[3 * t], s[3 * t + 1], s[3 * t + 2])
}

/// Some index of the list `s` names vertex `v`.
pub open spec fn mentions(s: Seq<u16>, v: int) -> bool {
    exists|j: int| 0 <= j < s.len() && s[j] == v
}

/// A convex polygon: its vertices in order around the boundary, and the index
/// list that splits it into triangles sharing the first vertex.
#[derive(Clone)]
pub struct Polygon<V> {
    vertices: Vec<V>,
    indices: Vec<u16>,
}

impl<V> Polygon<V> {
    /// The polygon's vertices, in order.
    pub closed spec fn vertex_seq(&self) -> Seq<V> {
        self.vertices@
    }

    /// The polygon's triangle index list.
    pub closed spec fn index_seq(&self) -> Seq<u16> {
        self.indices@
    }

    /// A polygon has at least three vertices and is split into the fan of
    /// `n - 2` triangles around its first vertex.
    pub open spec fn wf(&self) -> bool {
        &&& self.vertex_seq().len() >= 3
        &&& self.index_seq() == fan_indices((self.vertex_seq().len() - 2) as nat)
    }

    /// Builds a polygon from at least three vertices and splits it into the
    /// fan of triangles `(0, i + 1, i + 2)` for `i` in `0 .. n - 2`.
    pub fn new(vertices: Vec<V>) -> (p: Self)
        requires
            vertices.len() >= 3,
        ensures
            p.wf(),
            p.vertex_seq() == vertices@,
            p.index_seq() == fan_indices((vertices.len() - 2) as nat),
    {
        let n = vertices.len();
        let mut indices: Vec<u16> = Vec::new();
        let mut i: usize = 0;
        while i < n - 2
            invariant
                n == vertices.len(),
                n >= 3,
                i <= n - 2,
                indices@ == fan_indices(i as nat),
            decreases n - 2 - i,
        {
            let a: u16 = ((i + 1) % INDEX_RANGE) as u16;
            let b: u16 = ((i + 2) % INDEX_RANGE) as u16;
            indices.push(0);
            indices.push(a);
            indices.push(b);
            proof {
                assert(fan_indices((i + 1) as nat) == fan_indices(i as nat) + seq![
                    0u16,
                    wrap16(i + 1),
                    wrap16(i + 2),
                ]);
            }
            i = i + 1;
        }
        Polygon { vertices, indices }
    }

    /// A copy of the vertices, each a clone of the stored one.
    pub fn get_vertices(&self) -> (r: Vec<V>)
        where V: Clone
        ensures
            r@.len() == self.vertex_seq().len(),
            forall|i: int| 0 <= i < r@.len() ==> cloned::<V>(self.vertex_seq()[i], #[trigger] r@[i]),
    {
        self.vertices.clone()
    }

    /// A copy of the triangle index list.
    pub fn get_indices(&self) -> (r: Vec<u16>)
        ensures
            r@ == self.index_seq(),
    {
        let r = self.indices.clone();
        proof {
            assert(r@ =~= self.indices@);
        }
        r
    }
}

/// The fan of `k` triangles has `3k` indices; triangle `t` is
/// `(0, t + 1, t + 2)` stored modulo 2^16; and no index exceeds `k + 1`.
pub proof fn lemma_fan_shape(k: nat)
    ensures
        fan_indices(k).len() == 3 * k,
        forall|t: int| 0 <= t < k ==> #[trigger] triangle(fan_indices(k), t) == (0u16, wrap16(t + 1), wrap16(t + 2)),
        forall|j: int| 0 <= j < 3 * k ==> #[trigger] fan_indices(k)[j] <= k + 1,
    decreases k,
{
    if k > 0 {
        let prev = fan_indices((k - 1) as nat);
        lemma_fan_shape((k - 1) as nat);
        let s = fan_indices(k);
        assert(s == prev + seq![0u16, wrap16(k as int), wrap16(k + 1int)]);
        assert forall|t: int| 0 <= t < k implies #[trigger] triangle(s, t) == (0u16, wrap16(t + 1), wrap16(t + 2)) by {
            if t < k - 1 {
                assert(triangle(prev, t) == (0u16, wrap16(t + 1), wrap16(t + 2)));
            }
        }
        assert forall|j: int| 0 <= j < 3 * k implies #[trigger] s[j] <= k + 1 by {
            if j < 3 * (k - 1) {
                assert(prev[j] <= k);
            }
        }
    }
}

/// The number of indices of a polygon with `n` vertices is three per
/// triangle, and there are `n - 2` triangles, each `(0, t + 1, t + 2)`
/// (each number stored modulo 2^16).
pub proof fn lemma_polygon_triangles<V>(p: Polygon<V>)
    requires
        p.wf(),
    ensures
        p.index_seq().len() == 3 * (p.vertex_seq().len() - 2),
        forall|t: int|
            0 <= t < p.vertex_seq().len() - 2 ==> #[trigger] triangle(p.index_seq(), t) == (
                0u16,
                wrap16(t + 1),
                wrap16(t + 2),
            ),
{
    lemma_fan_shape((p.vertex_seq().len() - 2) as nat);
}

/// Every index of a polygon names one of its vertices.
pub proof fn lemma_polygon_indices_in_bounds<V>(p: Polygon<V>)
    requires
        p.wf(),
    ensures
        forall|j: int| 0 <= j < p.index_seq().len() ==> (#[trigger] p.index_seq()[j] as int) < p.vertex_seq().len(),
{
    lemma_fan_shape((p.vertex_seq().len() - 2) as nat);
}

/// When every vertex number fits in a `u16`, each triangle is exactly
/// `(0, t + 1, t + 2)` and every vertex is a corner of some triangle.
pub proof fn lemma_polygon_covers_vertices<V>(p: Polygon<V>)
    requires
        p.wf(),
        p.vertex_seq().len() <= 65536,
    ensures
        forall|t: int|
            0 <= t < p.vertex_seq().len() - 2 ==> #[trigger] triangle(p.index_seq(), t) == (
                0u16,
                (t + 1) as u16,
                (t + 2) as u16,
            ),
        forall|v: int| 0 <= v < p.vertex_seq().len() ==> #[trigger] mentions(p.index_seq(), v),
{
    let n = p.vertex_seq().len();
    let s = p.index_seq();
    lemma_fan_shape((n - 2) as nat);
    assert forall|t: int| 0 <= t < n - 2 implies #[trigger] triangle(s, t) == (
        0u16,
        (t + 1) as u16,
        (t + 2) as u16,
    ) by {
        assert(triangle(s, t) == (0u16, wrap16(t + 1), wrap16(t + 2)));
    }
    assert forall|v: int| 0 <= v < n implies #[trigger] mentions(s, v) by {
        if v == 0 {
            assert(triangle(s, 0) == (0u16, wrap16(1), wrap16(2)));
            assert(s[0] == v);
        } else if v <= n - 2 {
            let t = v - 1;
            assert(triangle(s, t) == (0u16, wrap16(t + 1), wrap16(t + 2)));
            assert(s[3 * t + 1] == v);
        } else {
            let t = n - 3;
            assert(triangle(s, t) == (0u16, wrap16(t + 1), wrap16(t + 2)));
            assert(s[3 * t + 2] == v);
        }
    }
}

} // verus!
