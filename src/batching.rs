use vstd::prelude::*;
use vstd::arithmetic::div_mod::{lemma_fundamental_div_mod_converse_div, lemma_div_is_ordered};
use vstd::arithmetic::mul::{lemma_mul_inequality, lemma_mul_is_distributive_add_other_way};

verus! {

/// `ceil(a / b)` for `b > 0`.
pub open spec fn ceil_div(a: nat, b: nat) -> nat
    recommends
        b > 0,
{
    ((a + b - 1) / (b as int)) as nat
}

/// The end of chunk `i` when `0..len` is cut into chunks of `width`.
pub open spec fn chunk_end(i: int, len: nat, width: nat) -> int {
    if (i + 1) * width <= len {
        (i + 1) * width
    } else {
        len as int
    }
}

/// `r` cuts `0..len` into contiguous chunks of `width` items, in order: chunk
/// `i` is `[i * width, min((i + 1) * width, len))`, and there are exactly
/// `ceil(len / width)` of them.
pub open spec fn is_chunking(r: Seq<(usize, usize)>, len: nat, width: nat) -> bool {
    &&& r.len() == ceil_div(len, width)
    &&& forall|i: int|
        0 <= i < r.len() ==> (#[trigger] r[i]).0 == i * width && r[i].1 == chunk_end(i, len, width)
}

/// `k` chunks of `width` cover `len` items exactly when `k = ceil(len / width)`.
pub proof fn lemma_ceil_div_from_bounds(len: nat, width: nat, k: nat)
    requires
        width > 0,
        k * width >= len,
        k == 0 || (k - 1) * width < len,
    ensures
        ceil_div(len, width) == k,
{
    if k == 0 {
        assert(len == 0);
        lemma_fundamental_div_mod_converse_div(width - 1, width as int, 0, width - 1);
    } else {
        lemma_mul_is_distributive_add_other_way(width as int, k - 1, 1);
        let r = len + width - 1 - k * width;
        lemma_fundamental_div_mod_converse_div(len + width - 1, width as int, k as int, r);
    }
}

/// Both bounds of `k = ceil(len / width)`: `k` chunks cover `len`, and
/// `k - 1` do not.
pub proof fn lemma_ceil_div_bounds(len: nat, width: nat)
    requires
        width > 0,
    ensures
        ceil_div(len, width) * width >= len,
        ceil_div(len, width) == 0 || (ceil_div(len, width) - 1) * width < len,
{
    let k = ceil_div(len, width);
    lemma_ceil_bound(len, width);
    let x = len + width - 1;
    vstd::arithmetic::div_mod::lemma_fundamental_div_mod(x as int, width as int);
    vstd::arithmetic::mul::lemma_mul_is_commutative(width as int, x / (width as int));
    if k > 0 {
        lemma_mul_is_distributive_add_other_way(width as int, k - 1, 1);
    }
}

/// Every chunk lies within `0..len`, its start before its end.
pub proof fn lemma_chunk_in_bounds(r: Seq<(usize, usize)>, len: nat, width: nat, j: int)
    requires
        width > 0,
        is_chunking(r, len, width),
        0 <= j < r.len(),
    ensures
        r[j].0 < r[j].1 <= len,
{
    lemma_ceil_div_bounds(len, width);
    vstd::arithmetic::mul::lemma_mul_inequality(j, r.len() - 1, width as int);
    lemma_mul_is_distributive_add_other_way(width as int, j, 1);
}

/// The pieces of `s` that the ranges `r` select, in order.
pub open spec fn pieces<A>(s: Seq<A>, r: Seq<(usize, usize)>) -> Seq<Seq<A>> {
    Seq::new(r.len(), |j: int| s.subrange(r[j].0 as int, r[j].1 as int))
}

proof fn lemma_chunks_prefix<A>(s: Seq<A>, r: Seq<(usize, usize)>, width: nat, k: nat)
    requires
        width > 0,
        is_chunking(r, s.len(), width),
        k <= r.len(),
    ensures
        pieces(s, r.subrange(0, k as int)).flatten_alt() == s.subrange(
            0,
            if k == 0 {
                0
            } else {
                r[k - 1].1 as int
            },
        ),
    decreases k,
{
    if k == 0 {
        assert(pieces(s, r.subrange(0, 0)).len() == 0);
        assert(s.subrange(0, 0) =~= Seq::<A>::empty());
    } else {
        lemma_chunks_prefix(s, r, width, (k - 1) as nat);
        let p = pieces(s, r.subrange(0, k as int));
        assert(p.drop_last() =~= pieces(s, r.subrange(0, k - 1)));
        let start = r[k - 1].0 as int;
        let prev_end = if k == 1 {
            0
        } else {
            r[k - 2].1 as int
        };
        lemma_ceil_div_bounds(s.len(), width);
        vstd::arithmetic::mul::lemma_mul_inequality(k - 1, r.len() - 1, width as int);
        lemma_mul_is_distributive_add_other_way(width as int, k - 1, 1);
        if k >= 2 {
            // chunk k - 1 starts where chunk k - 2 ends
            assert(r[k - 2].1 == chunk_end(k - 2, s.len(), width));
            assert((k - 2 + 1) * width == (k - 1) * width);
        } else {
            assert(r[0].0 == 0 * width);
        }
        assert(start == prev_end);
        assert(r[k - 1].1 == chunk_end(k - 1, s.len(), width));
        assert(r[k - 1].1 <= s.len());
        assert(p.last() == s.subrange(start, r[k - 1].1 as int));
        assert(s.subrange(0, prev_end) + s.subrange(prev_end, r[k - 1].1 as int) =~= s.subrange(
            0,
            r[k - 1].1 as int,
        ));
    }
}

/// Cutting a sequence by a chunking of its length and concatenating the
/// pieces in order gives the sequence back: nothing is lost, repeated or
/// moved.
pub proof fn lemma_chunks_reassemble<A>(s: Seq<A>, r: Seq<(usize, usize)>, width: nat)
    requires
        width > 0,
        is_chunking(r, s.len(), width),
    ensures
        pieces(s, r).flatten() == s,
{
    lemma_chunks_prefix(s, r, width, r.len());
    assert(r.subrange(0, r.len() as int) =~= r);
    pieces(s, r).lemma_flatten_and_flatten_alt_are_equivalent();
    lemma_ceil_div_bounds(s.len(), width);
    if r.len() == 0 {
        assert(s.len() == 0);
        assert(s =~= s.subrange(0, 0));
    } else {
        let k = r.len();
        assert(r[k - 1].1 == chunk_end(k - 1, s.len(), width));
        assert((k - 1 + 1) * width == k * width);
        assert(s.subrange(0, s.len() as int) =~= s);
    }
}

/// Cuts `0..len` into contiguous chunks of `width` items, in order.
pub fn chunk_ranges(len: usize, width: usize) -> (r: Vec<(usize, usize)>)
    requires
        width > 0,
    ensures
        is_chunking(r@, len as nat, width as nat),
{
    let mut r: Vec<(usize, usize)> = Vec::new();
    let mut start: usize = 0;
    assert(r@.len() * width == 0);
    while start < len
        invariant
            width > 0,
            start <= len,
            start == if r@.len() * width <= len { r@.len() * width } else { len as int },
            r@.len() == 0 || (r@.len() - 1) * width < len,
            forall|i: int|
                0 <= i < r@.len() ==> (#[trigger] r@[i]).0 == i * width && r@[i].1 == chunk_end(
                    i,
                    len as nat,
                    width as nat,
                ),
        decreases len - start,
    {
        let ghost k = r@.len();
        proof {
            lemma_mul_is_distributive_add_other_way(width as int, k as int, 1);
        }
        let end: usize = if len - start <= width {
            len
        } else {
            start + width
        };
        r.push((start, end));
        start = end;
    }
    proof {
        lemma_ceil_div_from_bounds(len as nat, width as nat, r@.len());
    }
    r
}

/// The largest number of positive example vectors a recommend query accepts.
pub const MAX_QUERY_VECTORS: usize = 32;

/// The number of probe vectors averaged into one query vector: 1 (no
/// reduction) for at most `MAX_QUERY_VECTORS` probes, else
/// `1 + ceil(n / MAX_QUERY_VECTORS)`.
pub open spec fn reduction_chunk_size_spec(n: nat) -> nat {
    if n <= MAX_QUERY_VECTORS {
        1
    } else {
        1 + ceil_div(n, MAX_QUERY_VECTORS as nat)
    }
}

/// Size of the contiguous chunks of probe vectors that are averaged together.
pub fn reduction_chunk_size(n: usize) -> (c: usize)
    ensures
        c == reduction_chunk_size_spec(n as nat),
        c >= 1,
{
    if n <= MAX_QUERY_VECTORS {
        1
    } else {
        let q: usize = n / MAX_QUERY_VECTORS;
        let up: usize = if n % MAX_QUERY_VECTORS == 0 { q } else { q + 1 };
        proof {
            let k = up as nat;
            assert(k * 32 >= n && (k - 1) * 32 < n);
            lemma_ceil_div_from_bounds(n as nat, 32, k);
        }
        1 + up
    }
}

/// The ranges of probe vectors that each become one query vector: contiguous
/// chunks of `reduction_chunk_size(n)`. For at most `MAX_QUERY_VECTORS`
/// probes every range holds a single vector, which is passed on unchanged.
pub fn reduction_ranges(n: usize) -> (r: Vec<(usize, usize)>)
    ensures
        is_chunking(r@, n as nat, reduction_chunk_size_spec(n as nat)),
{
    let c = reduction_chunk_size(n);
    chunk_ranges(n, c)
}

/// The reduced set never exceeds what a recommend query accepts, is non-empty
/// for a non-empty probe set, averages each query vector from a non-empty run
/// of at most `reduction_chunk_size_spec(n)` consecutive probes, and leaves at
/// most `MAX_QUERY_VECTORS` probes unreduced, one vector per range, in order.
pub proof fn lemma_reduction_bounded(n: nat, r: Seq<(usize, usize)>)
    requires
        is_chunking(r, n, reduction_chunk_size_spec(n)),
    ensures
        r.len() <= MAX_QUERY_VECTORS,
        n >= 1 ==> r.len() >= 1,
        forall|j: int|
            0 <= j < r.len() ==> 0 < (#[trigger] r[j]).1 - r[j].0 <= reduction_chunk_size_spec(n),
        n <= MAX_QUERY_VECTORS ==> r.len() == n && forall|i: int|
            0 <= i < n ==> (#[trigger] r[i]).0 == i && r[i].1 == i + 1,
{
    let c = reduction_chunk_size_spec(n);
    assert forall|j: int| 0 <= j < r.len() implies 0 < (#[trigger] r[j]).1 - r[j].0 <= c by {
        lemma_chunk_in_bounds(r, n, c, j);
        lemma_mul_is_distributive_add_other_way(c as int, j, 1);
    }
    if n <= MAX_QUERY_VECTORS {
        lemma_ceil_div_from_bounds(n, 1, n);
        assert forall|i: int| 0 <= i < n implies (#[trigger] r[i]).0 == i && r[i].1 == i + 1 by {
            assert(r[i].1 == chunk_end(i, n, 1));
        }
    } else {
        let q = ceil_div(n, 32);
        // n <= 32 * q < 32 * c, so ceil(n / c) <= 32
        lemma_ceil_bound(n, 32);
        lemma_mul_inequality(q as int, c as int, 32);
        assert(n <= 32 * c);
        lemma_div_is_ordered(n + c - 1, 32 * c + c - 1, c as int);
        lemma_fundamental_div_mod_converse_div(32 * c + c - 1, c as int, 32, c - 1);
    }
    if n >= 1 {
        lemma_div_is_ordered(c as int, n + c - 1, c as int);
        lemma_fundamental_div_mod_converse_div(c as int, c as int, 1, 0);
    }
}

/// `ceil(a / b) * b` covers `a`.
pub proof fn lemma_ceil_bound(a: nat, b: nat)
    requires
        b > 0,
    ensures
        ceil_div(a, b) * b >= a,
{
    let x = a + b - 1;
    vstd::arithmetic::div_mod::lemma_fundamental_div_mod(x as int, b as int);
    vstd::arithmetic::mul::lemma_mul_is_commutative(b as int, x / (b as int));
}

} // verus!
