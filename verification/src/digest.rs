//! The runtime semantics of the composed digest: the byte stream the
//! generated `hash` absorbs is the concatenation of the field digests in
//! declaration order, and for fixed-width field digests that stream pins the
//! ordered digests down exactly, so permuting fields with differing digests
//! changes the aggregate digest input.

use vstd::prelude::*;

verus! {

/// The byte views of a sequence of byte vectors.
pub open spec fn byte_views(v: Seq<Vec<u8>>) -> Seq<Seq<u8>> {
    Seq::new(v.len(), |i: int| v[i]@)
}

/// The byte sequence absorbed into the aggregate's hash state: the
/// concatenation of the field digests in declaration order.
pub open spec fn absorbed(digests: Seq<Seq<u8>>) -> Seq<u8>
    decreases digests.len(),
{
    if digests.len() == 0 {
        Seq::empty()
    } else {
        absorbed(digests.drop_last()) + digests.last()
    }
}

/// Build the byte stream the generated `hash` absorbs: each field digest
/// appended in declaration order, nothing between, before or after.
pub fn digest_stream(field_digests: &Vec<Vec<u8>>) -> (out: Vec<u8>)
    ensures
        out@ == absorbed(byte_views(field_digests@)),
{
    let ghost dv = byte_views(field_digests@);
    let mut out: Vec<u8> = Vec::new();
    proof {
        assert(out@ =~= absorbed(dv.take(0)));
    }
    for i in 0..field_digests.len()
        invariant
            dv == byte_views(field_digests@),
            dv.len() == field_digests@.len(),
            out@ == absorbed(dv.take(i as int)),
    {
        let d = &field_digests[i];
        let ghost mid = out@;
        proof {
            assert(d@ == dv[i as int]);
        }
        for j in 0..d.len()
            invariant
                d@ == dv[i as int],
                out@ == mid + d@.take(j as int),
        {
            out.push(d[j]);
            proof {
                assert(out@ =~= mid + d@.take(j + 1));
            }
        }
        proof {
            assert(d@.take(d@.len() as int) =~= d@);
            assert(dv.take(i + 1).drop_last() =~= dv.take(i as int));
            assert(dv.take(i + 1).last() == dv[i as int]);
            assert(out@ =~= absorbed(dv.take(i + 1)));
        }
    }
    proof {
        assert(dv.take(dv.len() as int) =~= dv);
    }
    out
}

/// The absorbed stream of fixed-width digests has one width-sized slot per
/// field, so its length is the field count times the width.
pub proof fn lemma_absorbed_len(d: Seq<Seq<u8>>, w: nat)
    requires
        forall|i: int| 0 <= i < d.len() ==> #[trigger] d[i].len() == w,
    ensures
        absorbed(d).len() == d.len() * w,
    decreases d.len(),
{
    if d.len() == 0 {
    } else {
        lemma_absorbed_len(d.drop_last(), w);
        assert(d.last().len() == w);
        assert((d.len() - 1) * w + w == d.len() * w) by (nonlinear_arith);
    }
}

/// In the absorbed stream of fixed-width digests, the byte at offset `j`
/// inside the slot of the field at position `i` is byte `j` of that field's
/// own digest: declaration order is preserved byte for byte.
pub proof fn lemma_absorbed_index(d: Seq<Seq<u8>>, w: nat, i: int, j: int)
    requires
        forall|k: int| 0 <= k < d.len() ==> #[trigger] d[k].len() == w,
        0 <= i < d.len(),
        0 <= j < w,
    ensures
        0 <= i * w + j < absorbed(d).len(),
        absorbed(d)[i * w + j] == d[i][j],
    decreases d.len(),
{
    lemma_absorbed_len(d, w);
    assert(0 <= i * w + j < d.len() * w) by (nonlinear_arith)
        requires
            0 <= i < d.len(),
            0 <= j < w,
    ;
    let prefix = d.drop_last();
    lemma_absorbed_len(prefix, w);
    if i == d.len() - 1 {
        assert(absorbed(d) == absorbed(prefix) + d.last());
        assert(absorbed(prefix).len() == (d.len() - 1) * w);
        assert(i * w + j - (d.len() - 1) * w == j);
        assert(absorbed(d)[i * w + j] == d.last()[j]);
    } else {
        lemma_absorbed_index(prefix, w, i, j);
        assert(i * w + j < (d.len() - 1) * w) by (nonlinear_arith)
            requires
                0 <= i < d.len() - 1,
                0 <= j < w,
        ;
        assert(absorbed(d)[i * w + j] == absorbed(prefix)[i * w + j]);
        assert(prefix[i] == d[i]);
    }
}

/// Law: for fixed-width field digests (one digest algorithm across the
/// aggregate), the absorbed stream determines the ordered digests. Two
/// orderings of the same field count whose digests differ at some position
/// absorb different streams, so permuting fields with differing digests
/// changes the aggregate digest input. (Two orderings whose digests agree at
/// every position absorb the same stream, so those are left out here.)
pub proof fn lemma_absorbed_fixed_width_injective(a: Seq<Seq<u8>>, b: Seq<Seq<u8>>, w: nat)
    requires
        a.len() == b.len(),
        forall|i: int| 0 <= i < a.len() ==> #[trigger] a[i].len() == w,
        forall|i: int| 0 <= i < b.len() ==> #[trigger] b[i].len() == w,
        exists|k: int| 0 <= k < a.len() && a[k] != b[k],
    ensures
        absorbed(a) != absorbed(b),
{
    let k = choose|k: int| 0 <= k < a.len() && a[k] != b[k];
    assert(a[k].len() == w);
    assert(b[k].len() == w);
    if forall|j: int| 0 <= j < w ==> a[k][j] == b[k][j] {
        assert(a[k] =~= b[k]);
        assert(false);
    }
    let j = choose|j: int| 0 <= j < w && a[k][j] != b[k][j];
    lemma_absorbed_index(a, w, k, j);
    lemma_absorbed_index(b, w, k, j);
    assert(absorbed(a)[k * w + j] != absorbed(b)[k * w + j]);
}

} // verus!
