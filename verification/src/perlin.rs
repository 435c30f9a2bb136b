//! Permutation tables for the gradient-noise hash.
//!
//! Gradient noise looks its random gradients up through three shuffled
//! copies of the identity table `0..256`, one per axis: a lattice corner
//! `(i, j, k)` is hashed by XOR-ing the table entries at each coordinate
//! taken modulo the table size. The shuffle must produce a permutation —
//! a table with a repeated or out-of-range entry would bias or break the
//! lookup — and the hash must land inside the gradient table. Both facts
//! are proved here; the floating-point interpolation that consumes the
//! hashed gradients lives outside the verified core.

use crate::utils::random_int_range;
use vstd::prelude::*;

verus! {

/// Number of entries in each permutation table.
pub const POINT_COUNT: usize = 256;

/// Every entry of `s` is a valid index into a table of `POINT_COUNT`
/// gradients.
pub open spec fn entries_in_range(s: Seq<i32>) -> bool {
    forall|k: int| 0 <= k < s.len() ==> 0 <= #[trigger] s[k] < 256
}

/// `s` holds each of the indices `0..256` exactly once.
pub open spec fn is_permutation_table(s: Seq<i32>) -> bool {
    &&& s.len() == 256
    &&& entries_in_range(s)
    &&& s.no_duplicates()
}

/// Exchanging two positions of a sequence leaves its multiset of elements
/// unchanged.
proof fn lemma_swap_preserves_multiset(s: Seq<i32>, i: int, j: int)
    requires
        0 <= i < s.len(),
        0 <= j < s.len(),
    ensures
        s.update(i, s[j]).update(j, s[i]).to_multiset() == s.to_multiset(),
{
    broadcast use vstd::seq_lib::group_to_multiset_ensures;
    broadcast use vstd::seq_lib::to_multiset_update;
    broadcast use vstd::multiset::group_multiset_axioms;

    if i == j {
        assert(s.update(i, s[j]).update(j, s[i]) =~= s);
    } else {
        let s1 = s.update(i, s[j]);
        let s2 = s1.update(j, s[i]);
        assert(s1[j] == s[j]);
        assert(s.to_multiset().contains(s[i]));
        assert(s1.to_multiset() == s.to_multiset().insert(s[j]).remove(s[i]));
        assert(s2.to_multiset() == s1.to_multiset().insert(s[i]).remove(s[j]));
        assert forall|x: i32| s2.to_multiset().count(x) == s.to_multiset().count(x) by {
            assert(s.to_multiset().count(s[i]) >= 1);
        }
        assert(s2.to_multiset() =~= s.to_multiset());
    }
}

/// Fisher–Yates shuffle of the first `n` entries of `arr`: the entries are
/// reordered but, as a multiset, unchanged.
pub fn permute(arr: &mut Vec<i32>, n: usize)
    requires
        n <= old(arr).len(),
        n <= 0x7fff_ffff,
    ensures
        final(arr).len() == old(arr).len(),
        final(arr)@.to_multiset() == old(arr)@.to_multiset(),
        final(arr)@.subrange(n as int, final(arr).len() as int) == old(arr)@.subrange(
            n as int,
            old(arr).len() as int,
        ),
{
    let mut index: usize = n;
    while index > 1
        invariant
            index <= n <= arr.len(),
            n <= 0x7fff_ffff,
            arr.len() == old(arr).len(),
            arr@.to_multiset() == old(arr)@.to_multiset(),
            arr@.subrange(n as int, arr.len() as int) =~= old(arr)@.subrange(
                n as int,
                old(arr).len() as int,
            ),
        decreases index,
    {
        index = index - 1;
        let target = random_int_range(0, index as i32) as usize;
        let ghost pre = arr@;
        let tmp = arr[index];
        let other = arr[target];
        arr.set(index, other);
        arr.set(target, tmp);
        proof {
            lemma_swap_preserves_multiset(pre, index as int, target as int);
            assert(arr@.subrange(n as int, arr.len() as int) =~= pre.subrange(
                n as int,
                pre.len() as int,
            ));
        }
    }
}

/// The identity table `0, 1, ..., 255` seen as a sequence.
pub open spec fn identity_table() -> Seq<i32> {
    Seq::new(256, |k: int| k as i32)
}

/// Overwrites `arr` with a random permutation of the indices `0..256`.
pub fn perlin_generate_perm(arr: &mut Vec<i32>)
    requires
        old(arr).len() == POINT_COUNT,
    ensures
        is_permutation_table(final(arr)@),
        final(arr)@.to_multiset() == identity_table().to_multiset(),
{
    let mut index: usize = 0;
    while index < POINT_COUNT
        invariant
            index <= POINT_COUNT,
            arr.len() == POINT_COUNT,
            forall|k: int| 0 <= k < index ==> #[trigger] arr@[k] == k as i32,
        decreases POINT_COUNT - index,
    {
        arr.set(index, index as i32);
        index = index + 1;
    }
    assert(arr@ =~= identity_table());
    permute(arr, POINT_COUNT);
    proof {
        lemma_permutation_of_identity(arr@);
    }
}

/// A sequence whose multiset of elements matches the identity table is a
/// permutation table: 256 entries, all in range, none repeated.
proof fn lemma_permutation_of_identity(s: Seq<i32>)
    requires
        s.to_multiset() == identity_table().to_multiset(),
    ensures
        is_permutation_table(s),
{
    broadcast use vstd::seq_lib::group_to_multiset_ensures;
    broadcast use vstd::multiset::group_multiset_axioms;

    let id = identity_table();
    assert(id.no_duplicates());
    id.lemma_multiset_has_no_duplicates();
    assert(s.len() == s.to_multiset().len());
    assert(id.len() == id.to_multiset().len());
    assert(s.len() == id.len());
    assert forall|k: int| 0 <= k < s.len() implies 0 <= #[trigger] s[k] < 256 by {
        assert(s.contains(s[k]));
        assert(s.to_multiset().count(s[k]) > 0);
        assert(id.to_multiset().count(s[k]) > 0);
        assert(id.contains(s[k]));
        let w = choose|w: int| 0 <= w < id.len() && id[w] == s[k];
        assert(id[w] == w as i32);
    }
    s.lemma_multiset_has_no_duplicates_conv();
}

/// Three shuffled index tables, one per axis, driving the gradient hash.
pub struct PerlinTables {
    pub perm_x: Vec<i32>,
    pub perm_y: Vec<i32>,
    pub perm_z: Vec<i32>,
}

impl PerlinTables {
    /// All three tables are permutations of `0..256`.
    pub open spec fn wf(self) -> bool {
        &&& is_permutation_table(self.perm_x@)
        &&& is_permutation_table(self.perm_y@)
        &&& is_permutation_table(self.perm_z@)
    }

    /// Builds three freshly shuffled tables.
    pub fn new() -> (tables: PerlinTables)
        ensures
            tables.wf(),
    {
        let mut perm_x: Vec<i32> = zero_table();
        let mut perm_y: Vec<i32> = zero_table();
        let mut perm_z: Vec<i32> = zero_table();
        perlin_generate_perm(&mut perm_x);
        perlin_generate_perm(&mut perm_y);
        perlin_generate_perm(&mut perm_z);
        PerlinTables { perm_x, perm_y, perm_z }
    }

    /// The hash of lattice corner `(i + di, j + dj, k + dk)`: table entries
    /// at each coordinate modulo the table size, combined by XOR.
    pub open spec fn corner_hash_spec(self, i: int, j: int, k: int, di: int, dj: int, dk: int) -> i32 {
        self.perm_x@[(i + di) % 256] ^ self.perm_y@[(j + dj) % 256] ^ self.perm_z@[(k + dk) % 256]
    }

    /// Hashes one corner of the lattice cell at `(i, j, k)`; the result
    /// indexes the gradient table.
    pub fn corner_index(&self, i: i32, j: i32, k: i32, di: usize, dj: usize, dk: usize) -> (idx: usize)
        requires
            self.wf(),
            di < 2,
            dj < 2,
            dk < 2,
        ensures
            idx < 256,
            idx == self.corner_hash_spec(i as int, j as int, k as int, di as int, dj as int, dk as int),
    {
        let xi = wrap_index(i, di);
        let yj = wrap_index(j, dj);
        let zk = wrap_index(k, dk);
        let a = self.perm_x[xi];
        let b = self.perm_y[yj];
        let c = self.perm_z[zk];
        proof {
            assert(0 <= a < 256 && 0 <= b < 256 && 0 <= c < 256 ==> 0 <= (a ^ b ^ c) < 256)
                by (bit_vector);
        }
        (a ^ b ^ c) as usize
    }
}

/// `(i + d) mod 256` as a table index, for a lattice coordinate `i` of
/// either sign.
fn wrap_index(i: i32, d: usize) -> (r: usize)
    requires
        d < 2,
    ensures
        r < 256,
        r == (i + d) % 256,
{
    proof {
        assert(0 <= (i & 0xFF) < 256) by (bit_vector);
    }
    let low = (i & 0xFF) as usize;
    let sum: usize = low + d;
    let r = sum & 0xFF;
    proof {
        assert((i & 0xFF) == ((i % 256 + 256) % 256)) by (bit_vector);
        assert(sum & 0xFF == sum % 256) by (bit_vector)
            requires
                sum < 512,
        ;
        vstd::arithmetic::div_mod::lemma_mod_add_multiples_vanish(i as int % 256, 256);
        vstd::arithmetic::div_mod::lemma_mod_twice(i as int, 256);
        assert(low == i % 256);
        vstd::arithmetic::div_mod::lemma_add_mod_noop(i as int, d as int, 256);
        vstd::arithmetic::div_mod::lemma_small_mod(d as nat, 256);
        assert(sum % 256 == (i + d) % 256);
    }
    r
}

/// A zeroed table of `POINT_COUNT` entries, ready to be overwritten.
fn zero_table() -> (arr: Vec<i32>)
    ensures
        arr.len() == POINT_COUNT,
{
    let mut arr: Vec<i32> = Vec::new();
    let mut index: usize = 0;
    while index < POINT_COUNT
        invariant
            index <= POINT_COUNT,
            arr.len() == index,
        decreases POINT_COUNT - index,
    {
        arr.push(0);
        index = index + 1;
    }
    arr
}

} // verus!
