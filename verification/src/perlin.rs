//! The integer state of the procedural noise texture: three permutation
//! tables, each a random shuffle of the indices `0..256`, and the XOR
//! lattice-corner indexing that noise sampling performs on them.
//!
//! The table of random scalars that those indices select from, and the fade
//! and trilinear interpolation of the selected corners, are floating-point
//! work done outside this crate.

use vstd::prelude::*;
use vstd::seq_lib::group_to_multiset_ensures;
use vstd::seq_lib::to_multiset_update;

verus! {

/// The seedable random number generator that the shuffles draw from,
/// declared so that it can cross the contracts below.
#[verifier::external_type_specification]
#[verifier::external_body]
pub struct ExStdRng(rand::rngs::StdRng);

/// Relies on rand's `RngExt::random_range` over `0..n`: the sample lies in
/// the given half-open range. The call panics on an empty range, so `n` must
/// be positive.
#[verifier::external_body]
fn random_below(rng: &mut rand::rngs::StdRng, n: usize) -> (r: usize)
    requires
        n >= 1,
    ensures
        r < n,
{
    rand::RngExt::random_range(rng, 0..n)
}

/// Shuffle the first `n` entries of `elements` in place, swapping each
/// position from the top down with a randomly drawn lower position. The
/// entries are rearranged, never changed: the sequence keeps its length and
/// its multiset of values, and entries at or beyond `n` stay where they are.
pub fn permute(rng: &mut rand::rngs::StdRng, n: u32, elements: &mut Vec<i32>)
    requires
        n <= old(elements)@.len(),
    ensures
        final(elements)@.len() == old(elements)@.len(),
        final(elements)@.to_multiset() == old(elements)@.to_multiset(),
        forall|q: int| n <= q < final(elements)@.len() ==> final(elements)@[q] == old(
            elements,
        )@[q],
{
    let mut i: usize = n as usize;
    while i > 1
        invariant
            i <= n,
            n <= elements@.len(),
            elements@.len() == old(elements)@.len(),
            elements@.to_multiset() == old(elements)@.to_multiset(),
            forall|q: int| n <= q < elements@.len() ==> elements@[q] == old(elements)@[q],
        decreases i,
    {
        i = i - 1;
        let target: usize = random_below(rng, i);
        let ghost s0 = elements@;
        let high: i32 = elements[i];
        let low: i32 = elements[target];
        elements.set(i, low);
        elements.set(target, high);
        proof {
            broadcast use group_to_multiset_ensures;

            let ghost s1 = s0.update(i as int, s0[target as int]);
            to_multiset_update(s0, i as int, s0[target as int]);
            to_multiset_update(s1, target as int, s0[i as int]);
            assert(s0.contains(s0[i as int]));
            assert(s1.contains(s1[i as int]));
            assert(elements@.to_multiset() =~= s0.to_multiset());
        }
    }
}

/// A freshly shuffled permutation table: the numbers `0..256` in a random
/// order.
pub fn generate_permute(rng: &mut rand::rngs::StdRng) -> (r: Vec<i32>)
    ensures
        r@.len() == 256,
        r@.to_multiset() == Seq::new(256, |q: int| q as i32).to_multiset(),
        forall|q: int| 0 <= q < 256 ==> 0 <= #[trigger] r@[q] < 256,
{
    let mut elements: Vec<i32> = Vec::new();
    let mut v: i32 = 0;
    while v < 256
        invariant
            0 <= v <= 256,
            elements@ =~= Seq::new(v as nat, |q: int| q as i32),
        decreases 256 - v,
    {
        elements.push(v);
        v = v + 1;
    }
    permute(rng, 256, &mut elements);
    proof {
        lemma_identity_multiset_bounds(elements@);
    }
    elements
}

/// The permutation-table state of a Perlin noise texture: one shuffle of
/// `0..256` per axis, drawn once at texture creation.
#[derive(Debug)]
pub struct PerlinTables {
    permute_x: Vec<i32>,
    permute_y: Vec<i32>,
    permute_z: Vec<i32>,
}

/// What a single permutation table looks like: 256 entries, each in
/// `0..256`.
pub open spec fn is_permutation_table(t: Seq<i32>) -> bool {
    &&& t.len() == 256
    &&& t.to_multiset() == Seq::new(256, |q: int| q as i32).to_multiset()
    &&& forall|q: int| 0 <= q < 256 ==> 0 <= #[trigger] t[q] < 256
}

impl PerlinTables {
    pub closed spec fn table_x(self) -> Seq<i32> {
        self.permute_x@
    }

    pub closed spec fn table_y(self) -> Seq<i32> {
        self.permute_y@
    }

    pub closed spec fn table_z(self) -> Seq<i32> {
        self.permute_z@
    }

    #[verifier::type_invariant]
    spec fn inv(self) -> bool {
        &&& is_permutation_table(self.table_x())
        &&& is_permutation_table(self.table_y())
        &&& is_permutation_table(self.table_z())
    }

    /// Three fresh independent shuffles of `0..256`, one per axis.
    pub fn new(rng: &mut rand::rngs::StdRng) -> (r: Self)
        ensures
            is_permutation_table(r.table_x()),
            is_permutation_table(r.table_y()),
            is_permutation_table(r.table_z()),
    {
        let permute_x = generate_permute(rng);
        let permute_y = generate_permute(rng);
        let permute_z = generate_permute(rng);
        Self { permute_x, permute_y, permute_z }
    }

    /// The index of the scalar at one corner of the lattice cell around a
    /// sample point: each integer coordinate plus its corner offset is
    /// wrapped into `0..256`, sent through that axis's permutation table,
    /// and the three table values are XOR-combined.
    pub closed spec fn spec_corner_index(
        self,
        i: i64,
        j: i64,
        k: i64,
        di: u32,
        dj: u32,
        dk: u32,
    ) -> int {
        (self.table_x()[(i + di) % 256] ^ self.table_y()[(j + dj) % 256] ^ self.table_z()[(k + dk)
            % 256]) as int
    }

    /// Look up the scalar index for the lattice corner `(di, dj, dk)` of the
    /// cell whose lowest corner has integer coordinates `(i, j, k)`. The
    /// result always addresses one of the 256 noise scalars.
    pub fn corner_index(&self, i: i64, j: i64, k: i64, di: u32, dj: u32, dk: u32) -> (r: usize)
        requires
            i + di <= i64::MAX,
            j + dj <= i64::MAX,
            k + dk <= i64::MAX,
        ensures
            r == self.spec_corner_index(i, j, k, di, dj, dk),
            r < 256,
    {
        proof {
            use_type_invariant(&*self);
        }
        let xw: usize = wrap_lattice(i, di);
        let yw: usize = wrap_lattice(j, dj);
        let zw: usize = wrap_lattice(k, dk);
        let vx: i32 = self.permute_x[xw];
        let vy: i32 = self.permute_y[yw];
        let vz: i32 = self.permute_z[zw];
        let r: i32 = vx ^ vy ^ vz;
        proof {
            assert(0 <= (vx ^ vy ^ vz) < 256) by (bit_vector)
                requires
                    0 <= vx < 256,
                    0 <= vy < 256,
                    0 <= vz < 256,
            ;
        }
        r as usize
    }
}

/// Wrap an integer lattice coordinate plus a corner offset into `0..256`,
/// as the low eight bits of their sum.
fn wrap_lattice(i: i64, d: u32) -> (r: usize)
    requires
        i + d <= i64::MAX,
    ensures
        r == (i + d) % 256,
{
    let s: i64 = i + (d as i64);
    let w: i64 = s & 255;
    proof {
        assert(0 <= (s & 255) < 256 && (s & 255) == (s as int) % 256) by (bit_vector);
    }
    w as usize
}

/// A permutation table is a bijection on `0..256`: two different positions
/// never select the same scalar index, and every scalar index is selected by
/// some position.
pub proof fn lemma_permutation_table_bijective(t: Seq<i32>)
    requires
        is_permutation_table(t),
    ensures
        forall|a: int, b: int| 0 <= a < b < 256 ==> t[a] != t[b],
        forall|v: i32| 0 <= v < 256 ==> t.contains(v),
{
    broadcast use group_to_multiset_ensures;

    let ident = Seq::new(256, |q: int| q as i32);
    assert(ident.no_duplicates());
    ident.lemma_multiset_has_no_duplicates();
    t.lemma_multiset_has_no_duplicates_conv();
    assert forall|v: i32| 0 <= v < 256 implies t.contains(v) by {
        assert(ident[v as int] == v);
        assert(ident.contains(v));
        assert(ident.to_multiset().count(v) > 0);
        assert(t.to_multiset().count(v) > 0);
    }
}

/// A sequence whose values form the multiset `{0, 1, ..., 255}` only holds
/// values in that range.
proof fn lemma_identity_multiset_bounds(s: Seq<i32>)
    requires
        s.to_multiset() == Seq::new(256, |q: int| q as i32).to_multiset(),
    ensures
        forall|q: int| 0 <= q < s.len() ==> 0 <= #[trigger] s[q] < 256,
{
    broadcast use group_to_multiset_ensures;

    let ident = Seq::new(256, |q: int| q as i32);
    assert forall|q: int| 0 <= q < s.len() implies 0 <= #[trigger] s[q] < 256 by {
        assert(s.contains(s[q]));
        assert(ident.to_multiset().count(s[q]) > 0);
        assert(ident.contains(s[q]));
        let w = choose|w: int| 0 <= w < ident.len() && ident[w] == s[q];
        assert(ident[w] == w as i32);
    }
}

} // verus!
