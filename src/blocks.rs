use vstd::prelude::*;

verus! {

/// The `k`-th block of a buffer of `len` samples cut into blocks of `size`:
/// `[k * size, min((k + 1) * size, len))`.
pub open spec fn block_at(len: nat, size: nat, k: nat) -> (int, int) {
    let start = k * size;
    let end: int = if (k + 1) * size <= len { ((k + 1) * size) as int } else { len as int };
    (start as int, end)
}

/// How many blocks a buffer of `len` samples has: every full block and one partial
/// block for the remainder, if any.
pub open spec fn block_count(len: nat, size: nat) -> nat
    recommends
        size > 0,
{
    (len + size - 1) as nat / size
}

/// Cuts a buffer of `len` samples into consecutive blocks of `size` samples.
/// The blocks cover the buffer in order without overlap; only the last one may be
/// shorter than `size`, and the caller runs it through the kernel with a scratch
/// buffer of its own length.
pub fn block_bounds(len: usize, size: usize) -> (r: Vec<(usize, usize)>)
    requires
        size > 0,
    ensures
        r@.len() == block_count(len as nat, size as nat),
        forall|k: int| 0 <= k < r@.len() ==>
            (r@[k].0 as int, r@[k].1 as int) == block_at(len as nat, size as nat, k as nat),
{
    proof {
        if len % size != 0 {
            assert(len / size < len) by (nonlinear_arith)
                requires size > 0, len % size != 0;
        }
    }
    let count: usize = if len % size == 0 { len / size } else { len / size + 1 };
    proof { lemma_block_count(len as nat, size as nat); }
    let mut out: Vec<(usize, usize)> = Vec::with_capacity(count);
    let mut k: usize = 0;
    while k < count
        invariant
            size > 0,
            count == block_count(len as nat, size as nat),
            forall|j: nat| j < count ==> #[trigger] (j * (size as nat)) < len,
            k <= count,
            out@.len() == k,
            forall|j: int| 0 <= j < out@.len() ==>
                (out@[j].0 as int, out@[j].1 as int) == block_at(len as nat, size as nat, j as nat),
        decreases count - k,
    {
        assert((k as nat) * (size as nat) < len);
        let start: usize = k * size;
        let end: usize = if len - start > size { start + size } else { len };
        proof {
            assert((k + 1) * size == k * size + size) by (nonlinear_arith);
        }
        out.push((start, end));
        k = k + 1;
    }
    out
}

/// The block count in the form the loop computes it, and the fact that every
/// block starts inside the buffer.
proof fn lemma_block_count(len: nat, size: nat)
    requires
        size > 0,
    ensures
        block_count(len, size) == if len % size == 0 { len / size } else { len / size + 1 },
        forall|j: nat| j < block_count(len, size) ==> #[trigger] (j * size) < len,
{
    let q = len / size;
    let r = len % size;
    assert(len == q * size + r && r < size) by (nonlinear_arith)
        requires size > 0, q == len / size, r == len % size;
    if r == 0 {
        assert((len + size - 1) as nat / size == q) by (nonlinear_arith)
            requires size > 0, len == q * size, q >= 0;
    } else {
        assert((len + size - 1) as nat / size == q + 1) by (nonlinear_arith)
            requires size > 0, len == q * size + r, 0 < r < size, q >= 0;
    }
    assert forall|j: nat| j < block_count(len, size) implies #[trigger] (j * size) < len by {
        if r == 0 {
            assert(j * size < len) by (nonlinear_arith)
                requires j < q, len == q * size, size > 0;
        } else {
            assert(j * size < len) by (nonlinear_arith)
                requires j < q + 1, len == q * size + r, r > 0, size > 0;
        }
    }
}

} // verus!
