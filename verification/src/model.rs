//! A runtime model of the composed lifecycle, instantiated with the simplest
//! leaf view (a byte register per field) over an in-memory image of the
//! aggregate's key scope.
//!
//! The store image has one slot per field: slot `i` stands for whatever is
//! persisted under the base key the generated `load` derives from position
//! `i` (the positions are pairwise distinct, so the slots are independent).
//! The model mirrors the composed semantics operation for operation: `load`
//! reads every slot in order, `flush` appends one pending write per staged
//! field into a shared batch, `save` flushes into a fresh batch and submits
//! it once, `write_delete` submits one erasure per field, `rollback` and
//! `clear` are pure in-memory walks, and the digest input is the field
//! contents in declaration order.

use vstd::prelude::*;

use crate::digest::absorbed;
use crate::digest::byte_views;

verus! {

/// One field of the model aggregate: the last loaded or flushed content, and
/// the pending in-memory mutation if one is staged.
#[derive(Clone, Debug, PartialEq, Eq)]
pub struct RegisterModel {
    pub value: Vec<u8>,
    pub staged: Option<Vec<u8>>,
}

/// Spec-level image of a [`RegisterModel`].
#[verifier::ext_equal]
pub struct RegisterModelV {
    pub value: Seq<u8>,
    pub staged: Option<Seq<u8>>,
}

impl View for RegisterModel {
    type V = RegisterModelV;

    open spec fn view(&self) -> RegisterModelV {
        RegisterModelV {
            value: self.value@,
            staged: match self.staged {
                Some(v) => Some(v@),
                None => None,
            },
        }
    }
}

/// The views of a sequence of field models.
pub open spec fn reg_views(v: Seq<RegisterModel>) -> Seq<RegisterModelV> {
    Seq::new(v.len(), |i: int| v[i]@)
}

/// One pending store mutation: write a field's slot, or erase it.
#[derive(Clone, Debug, PartialEq, Eq)]
pub enum WriteOp {
    Put(usize, Vec<u8>),
    Delete(usize),
}

/// Spec-level image of a [`WriteOp`].
pub enum WriteOpV {
    Put(int, Seq<u8>),
    Delete(int),
}

impl View for WriteOp {
    type V = WriteOpV;

    open spec fn view(&self) -> WriteOpV {
        match self {
            WriteOp::Put(i, v) => WriteOpV::Put(*i as int, v@),
            WriteOp::Delete(i) => WriteOpV::Delete(*i as int),
        }
    }
}

/// The views of a batch of store mutations.
pub open spec fn op_views(v: Seq<WriteOp>) -> Seq<WriteOpV> {
    Seq::new(v.len(), |i: int| v[i]@)
}

/// The in-memory image of one aggregate's key scope: slot `i` holds what is
/// persisted under the base key derived from position `i`, if anything.
#[derive(Clone, Debug, PartialEq, Eq)]
pub struct StoreModel {
    pub slots: Vec<Option<Vec<u8>>>,
}

/// The views of the slots of a store image.
pub open spec fn slot_views(v: Seq<Option<Vec<u8>>>) -> Seq<Option<Seq<u8>>> {
    Seq::new(
        v.len(),
        |i: int|
            match v[i] {
                Some(b) => Some(b@),
                None => None,
            },
    )
}

impl View for StoreModel {
    type V = Seq<Option<Seq<u8>>>;

    open spec fn view(&self) -> Seq<Option<Seq<u8>>> {
        slot_views(self.slots@)
    }
}

/// The model aggregate: one register per field, in declaration order.
#[derive(Clone, Debug, PartialEq, Eq)]
pub struct AggregateModel {
    pub fields: Vec<RegisterModel>,
}

impl View for AggregateModel {
    type V = Seq<RegisterModelV>;

    open spec fn view(&self) -> Seq<RegisterModelV> {
        reg_views(self.fields@)
    }
}

/// What a field loads from one slot: the persisted bytes, or the default
/// (empty) content where nothing is persisted.
pub open spec fn slot_value(s: Option<Seq<u8>>) -> Seq<u8> {
    match s {
        Some(v) => v,
        None => Seq::empty(),
    }
}

/// The aggregate `load` reads every slot in declaration order and stages
/// nothing.
pub open spec fn spec_load(store: Seq<Option<Seq<u8>>>) -> Seq<RegisterModelV> {
    Seq::new(store.len(), |i: int| RegisterModelV { value: slot_value(store[i]), staged: None })
}

/// The aggregate `rollback` discards every pending mutation, touching no
/// content.
pub open spec fn spec_rollback(a: Seq<RegisterModelV>) -> Seq<RegisterModelV> {
    Seq::new(a.len(), |i: int| RegisterModelV { value: a[i].value, staged: None })
}

/// The aggregate `clear` stages the default (empty) content on every field.
pub open spec fn spec_clear(a: Seq<RegisterModelV>) -> Seq<RegisterModelV> {
    Seq::new(a.len(), |i: int| RegisterModelV { value: a[i].value, staged: Some(Seq::empty()) })
}

/// A field's content after its pending mutation lands.
pub open spec fn staged_or_value(r: RegisterModelV) -> Seq<u8> {
    match r.staged {
        Some(v) => v,
        None => r.value,
    }
}

/// The aggregate `flush` moves every pending mutation into the field's
/// content and leaves nothing staged.
pub open spec fn spec_flush_fields(a: Seq<RegisterModelV>) -> Seq<RegisterModelV> {
    Seq::new(a.len(), |i: int| RegisterModelV { value: staged_or_value(a[i]), staged: None })
}

/// The batch the first `n` fields append during `flush`: one write per
/// staged field, in declaration order, nothing for an unstaged field.
pub open spec fn spec_flush_ops(a: Seq<RegisterModelV>, n: int) -> Seq<WriteOpV>
    decreases n,
{
    if n <= 0 {
        Seq::empty()
    } else {
        spec_flush_ops(a, n - 1) + match a[n - 1].staged {
            Some(v) => seq![WriteOpV::Put(n - 1, v)],
            None => Seq::<WriteOpV>::empty(),
        }
    }
}

/// The batch `write_delete` submits for `n` fields: one erasure per field,
/// in declaration order.
pub open spec fn spec_delete_ops(n: int) -> Seq<WriteOpV>
    decreases n,
{
    if n <= 0 {
        Seq::empty()
    } else {
        spec_delete_ops(n - 1) + seq![WriteOpV::Delete(n - 1)]
    }
}

/// One store mutation applied to the scope image; a slot outside the scope is
/// left as it is.
pub open spec fn apply_one(store: Seq<Option<Seq<u8>>>, op: WriteOpV) -> Seq<Option<Seq<u8>>> {
    match op {
        WriteOpV::Put(i, v) => if 0 <= i < store.len() {
            store.update(i, Some(v))
        } else {
            store
        },
        WriteOpV::Delete(i) => if 0 <= i < store.len() {
            store.update(i, None)
        } else {
            store
        },
    }
}

/// A whole batch applied atomically: every mutation lands, in batch order.
pub open spec fn spec_apply(store: Seq<Option<Seq<u8>>>, ops: Seq<WriteOpV>) -> Seq<
    Option<Seq<u8>>,
>
    decreases ops.len(),
{
    if ops.len() == 0 {
        store
    } else {
        apply_one(spec_apply(store, ops.drop_last()), ops.last())
    }
}

/// The flushed field contents in declaration order.
pub open spec fn values_of(a: Seq<RegisterModelV>) -> Seq<Seq<u8>> {
    Seq::new(a.len(), |i: int| a[i].value)
}

/// The current in-memory field contents in declaration order, staged
/// mutations included: the byte stream the aggregate digest absorbs, field
/// by field.
pub open spec fn current_values(a: Seq<RegisterModelV>) -> Seq<Seq<u8>> {
    Seq::new(a.len(), |i: int| staged_or_value(a[i]))
}

fn clone_bytes(v: &Vec<u8>) -> (r: Vec<u8>)
    ensures
        r@ == v@,
{
    let mut r: Vec<u8> = Vec::new();
    for i in 0..v.len()
        invariant
            r@ == v@.take(i as int),
    {
        r.push(v[i]);
        proof {
            assert(r@ =~= v@.take(i + 1));
        }
    }
    proof {
        assert(v@.take(v@.len() as int) =~= v@);
    }
    r
}

impl AggregateModel {
    /// Load an aggregate from its scope image: every slot read in declaration
    /// order, nothing staged.
    pub fn load(store: &StoreModel) -> (a: AggregateModel)
        ensures
            a@ == spec_load(store@),
    {
        let mut fields: Vec<RegisterModel> = Vec::new();
        for i in 0..store.slots.len()
            invariant
                fields@.len() == i,
                forall|j: int| 0 <= j < i ==> #[trigger] reg_views(fields@)[j] == spec_load(
                    store@,
                )[j],
        {
            let value = match &store.slots[i] {
                Some(v) => clone_bytes(v),
                None => Vec::new(),
            };
            let r = RegisterModel { value, staged: None };
            proof {
                assert(store@[i as int] == slot_views(store.slots@)[i as int]);
                assert(r@ =~= spec_load(store@)[i as int]);
            }
            let ghost old_fields = fields@;
            fields.push(r);
            proof {
                assert forall|j: int| 0 <= j < i + 1 implies #[trigger] reg_views(fields@)[j]
                    == spec_load(store@)[j] by {
                    if j < i {
                        assert(reg_views(old_fields)[j] == spec_load(store@)[j]);
                        assert(fields@[j] == old_fields[j]);
                    } else {
                        assert(fields@[j] == r);
                    }
                }
            }
        }
        let a = AggregateModel { fields };
        proof {
            assert(a@ =~~= spec_load(store@));
        }
        a
    }

    /// Stage new content on the field at `position`, touching nothing else.
    pub fn set_field(&mut self, position: usize, content: Vec<u8>)
        requires
            position < old(self)@.len(),
        ensures
            final(self)@ == old(self)@.update(
                position as int,
                RegisterModelV { value: old(self)@[position as int].value, staged: Some(content@) },
            ),
    {
        proof {
            assert(old(self).fields@.len() == old(self)@.len());
        }
        let value = clone_bytes(&self.fields[position].value);
        self.fields.set(position, RegisterModel { value, staged: Some(content) });
        proof {
            assert(self@ =~~= old(self)@.update(
                position as int,
                RegisterModelV { value: old(self)@[position as int].value, staged: Some(content@) },
            ));
        }
    }

    /// Roll back every field in declaration order; purely in-memory, never
    /// fails.
    pub fn rollback(&mut self)
        ensures
            final(self)@ == spec_rollback(old(self)@),
    {
        let n = self.fields.len();
        let mut next: Vec<RegisterModel> = Vec::new();
        for i in 0..n
            invariant
                n == self.fields@.len(),
                self@ == old(self)@,
                next@.len() == i,
                forall|j: int| 0 <= j < i ==> #[trigger] reg_views(next@)[j] == spec_rollback(
                    old(self)@,
                )[j],
        {
            let value = clone_bytes(&self.fields[i].value);
            let r = RegisterModel { value, staged: None };
            proof {
                assert(self@[i as int] == self.fields@[i as int]@);
                assert(r@ =~= spec_rollback(old(self)@)[i as int]);
            }
            let ghost old_next = next@;
            next.push(r);
            proof {
                assert forall|j: int| 0 <= j < i + 1 implies #[trigger] reg_views(next@)[j]
                    == spec_rollback(old(self)@)[j] by {
                    if j < i {
                        assert(reg_views(old_next)[j] == spec_rollback(old(self)@)[j]);
                        assert(next@[j] == old_next[j]);
                    } else {
                        assert(next@[j] == r);
                    }
                }
            }
        }
        self.fields = next;
        proof {
            assert(self@ =~~= spec_rollback(old(self)@));
        }
    }

    /// Clear every field in declaration order; purely in-memory, never fails.
    pub fn clear(&mut self)
        ensures
            final(self)@ == spec_clear(old(self)@),
    {
        let n = self.fields.len();
        let mut next: Vec<RegisterModel> = Vec::new();
        for i in 0..n
            invariant
                n == self.fields@.len(),
                self@ == old(self)@,
                next@.len() == i,
                forall|j: int| 0 <= j < i ==> #[trigger] reg_views(next@)[j] == spec_clear(
                    old(self)@,
                )[j],
        {
            let value = clone_bytes(&self.fields[i].value);
            let r = RegisterModel { value, staged: Some(Vec::new()) };
            proof {
                assert(self@[i as int] == self.fields@[i as int]@);
                assert(r@ =~= spec_clear(old(self)@)[i as int]);
            }
            let ghost old_next = next@;
            next.push(r);
            proof {
                assert forall|j: int| 0 <= j < i + 1 implies #[trigger] reg_views(next@)[j]
                    == spec_clear(old(self)@)[j] by {
                    if j < i {
                        assert(reg_views(old_next)[j] == spec_clear(old(self)@)[j]);
                        assert(next@[j] == old_next[j]);
                    } else {
                        assert(next@[j] == r);
                    }
                }
            }
        }
        self.fields = next;
        proof {
            assert(self@ =~~= spec_clear(old(self)@));
        }
    }

    /// Flush every field in declaration order: each staged mutation is
    /// appended to the shared batch and lands in the field's content.
    pub fn flush(&mut self, batch: &mut Vec<WriteOp>)
        ensures
            final(self)@ == spec_flush_fields(old(self)@),
            op_views(final(batch)@) == op_views(old(batch)@) + spec_flush_ops(
                old(self)@,
                old(self)@.len() as int,
            ),
    {
        let n = self.fields.len();
        let mut next: Vec<RegisterModel> = Vec::new();
        proof {
            assert(op_views(batch@) =~= op_views(old(batch)@) + spec_flush_ops(old(self)@, 0));
        }
        for i in 0..n
            invariant
                n == self.fields@.len(),
                self@ == old(self)@,
                next@.len() == i,
                forall|j: int| 0 <= j < i ==> #[trigger] reg_views(next@)[j] == spec_flush_fields(
                    old(self)@,
                )[j],
                op_views(batch@) == op_views(old(batch)@) + spec_flush_ops(old(self)@, i as int),
        {
            proof {
                assert(self@[i as int] == self.fields@[i as int]@);
            }
            let staged_c = match &self.fields[i].staged {
                Some(v) => Some(clone_bytes(v)),
                None => None,
            };
            let r = match staged_c {
                Some(w) => {
                    let content = clone_bytes(&w);
                    let ghost pb = op_views(batch@);
                    batch.push(WriteOp::Put(i, w));
                    proof {
                        assert(old(self)@[i as int].staged == Some(content@));
                        assert(staged_or_value(old(self)@[i as int]) == content@);
                        assert(op_views(batch@) =~= pb.push(WriteOpV::Put(i as int, content@)));
                        assert(op_views(batch@) =~= op_views(old(batch)@) + spec_flush_ops(
                            old(self)@,
                            i + 1,
                        ));
                    }
                    RegisterModel { value: content, staged: None }
                },
                None => {
                    let value = clone_bytes(&self.fields[i].value);
                    proof {
                        assert(old(self)@[i as int].staged is None);
                        assert(spec_flush_ops(old(self)@, i + 1) =~= spec_flush_ops(
                            old(self)@,
                            i as int,
                        ));
                        assert(op_views(batch@) =~= op_views(old(batch)@) + spec_flush_ops(
                            old(self)@,
                            i + 1,
                        ));
                    }
                    RegisterModel { value, staged: None }
                },
            };
            proof {
                assert(r@ =~= spec_flush_fields(old(self)@)[i as int]);
            }
            let ghost old_next = next@;
            next.push(r);
            proof {
                assert forall|j: int| 0 <= j < i + 1 implies #[trigger] reg_views(next@)[j]
                    == spec_flush_fields(old(self)@)[j] by {
                    if j < i {
                        assert(reg_views(old_next)[j] == spec_flush_fields(old(self)@)[j]);
                        assert(next@[j] == old_next[j]);
                    } else {
                        assert(next@[j] == r);
                    }
                }
            }
        }
        self.fields = next;
        proof {
            assert(self@ =~~= spec_flush_fields(old(self)@));
        }
    }

    /// Save: flush every field into a fresh, empty batch, then submit the
    /// whole batch to the store in one atomic call.
    pub fn save(&mut self, store: &mut StoreModel)
        ensures
            final(self)@ == spec_flush_fields(old(self)@),
            final(store)@ == spec_apply(
                old(store)@,
                spec_flush_ops(old(self)@, old(self)@.len() as int),
            ),
    {
        let mut batch: Vec<WriteOp> = Vec::new();
        self.flush(&mut batch);
        proof {
            assert(op_views(batch@) =~= spec_flush_ops(old(self)@, old(self)@.len() as int));
        }
        store.apply(&batch);
    }

    /// Write-delete: consume the aggregate and submit one batch erasing every
    /// field's slot, in declaration order.
    pub fn write_delete(self, store: &mut StoreModel)
        ensures
            final(store)@ == spec_apply(old(store)@, spec_delete_ops(self@.len() as int)),
    {
        let n = self.fields.len();
        let mut batch: Vec<WriteOp> = Vec::new();
        proof {
            assert(op_views(batch@) =~= spec_delete_ops(0));
        }
        for i in 0..n
            invariant
                n == self.fields@.len(),
                op_views(batch@) == spec_delete_ops(i as int),
        {
            batch.push(WriteOp::Delete(i));
            proof {
                assert(op_views(batch@) =~= spec_delete_ops(i + 1));
            }
        }
        store.apply(&batch);
    }

    /// The byte stream the aggregate digest absorbs: every field's current
    /// in-memory content, staged mutations included, in declaration order.
    pub fn digest_input(&self) -> (out: Vec<u8>)
        ensures
            out@ == absorbed(current_values(self@)),
    {
        let mut values: Vec<Vec<u8>> = Vec::new();
        let n = self.fields.len();
        for i in 0..n
            invariant
                n == self.fields@.len(),
                values@.len() == i,
                forall|j: int| 0 <= j < i ==> #[trigger] byte_views(values@)[j] == current_values(
                    self@,
                )[j],
        {
            let v = match &self.fields[i].staged {
                Some(staged) => clone_bytes(staged),
                None => clone_bytes(&self.fields[i].value),
            };
            proof {
                assert(self@[i as int] == self.fields@[i as int]@);
                assert(v@ == staged_or_value(self@[i as int]));
            }
            let ghost old_values = values@;
            values.push(v);
            proof {
                assert forall|j: int| 0 <= j < i + 1 implies #[trigger] byte_views(values@)[j]
                    == current_values(self@)[j] by {
                    if j < i {
                        assert(byte_views(old_values)[j] == current_values(self@)[j]);
                        assert(values@[j] == old_values[j]);
                    } else {
                        assert(values@[j]@ == staged_or_value(self@[j]));
                    }
                }
            }
        }
        proof {
            assert(byte_views(values@) =~~= current_values(self@));
        }
        crate::digest::digest_stream(&values)
    }
}

impl StoreModel {
    /// Apply a batch atomically: every mutation lands, in batch order.
    pub fn apply(&mut self, batch: &Vec<WriteOp>)
        ensures
            final(self)@ == spec_apply(old(self)@, op_views(batch@)),
    {
        let ghost ops = op_views(batch@);
        for k in 0..batch.len()
            invariant
                ops == op_views(batch@),
                ops.len() == batch@.len(),
                self@ == spec_apply(old(self)@, ops.take(k as int)),
        {
            proof {
                assert(ops.take(k + 1).drop_last() =~= ops.take(k as int));
                assert(ops.take(k + 1).last() == batch@[k as int]@);
            }
            match &batch[k] {
                WriteOp::Put(i, v) => {
                    if *i < self.slots.len() {
                        let content = clone_bytes(v);
                        self.slots.set(*i, Some(content));
                    }
                    proof {
                        assert(self@ =~= apply_one(
                            spec_apply(old(self)@, ops.take(k as int)),
                            batch@[k as int]@,
                        ));
                    }
                },
                WriteOp::Delete(i) => {
                    if *i < self.slots.len() {
                        self.slots.set(*i, None);
                    }
                    proof {
                        assert(self@ =~= apply_one(
                            spec_apply(old(self)@, ops.take(k as int)),
                            batch@[k as int]@,
                        ));
                    }
                },
            }
        }
        proof {
            assert(ops.take(ops.len() as int) =~= ops);
        }
    }
}

/// Law: clearing twice is the same as clearing once — the second walk stages
/// the same default content the first one staged.
pub proof fn lemma_clear_idempotent(a: Seq<RegisterModelV>)
    ensures
        spec_clear(spec_clear(a)) == spec_clear(a),
{
    assert(spec_clear(spec_clear(a)) =~~= spec_clear(a));
}

/// Law: rolling back an aggregate with no pending mutation is a no-op.
pub proof fn lemma_rollback_without_pending_is_noop(a: Seq<RegisterModelV>)
    requires
        forall|i: int| 0 <= i < a.len() ==> (#[trigger] a[i]).staged is None,
    ensures
        spec_rollback(a) == a,
{
    assert forall|i: int| 0 <= i < a.len() implies spec_rollback(a)[i] == a[i] by {
        assert(a[i].staged is None);
        assert(spec_rollback(a)[i] =~= a[i]);
    }
    assert(spec_rollback(a) =~~= a);
}

/// After the flush batch of the first `n` fields lands, slot `j` holds the
/// staged content of field `j` where one was staged, and is untouched
/// everywhere else.
pub proof fn lemma_apply_flush_ops(a: Seq<RegisterModelV>, store: Seq<Option<Seq<u8>>>, n: int)
    requires
        a.len() == store.len(),
        0 <= n <= a.len(),
    ensures
        spec_apply(store, spec_flush_ops(a, n)).len() == store.len(),
        forall|j: int|
            0 <= j < store.len() ==> #[trigger] spec_apply(store, spec_flush_ops(a, n))[j]
                == (if j < n && a[j].staged is Some {
                Some(staged_or_value(a[j]))
            } else {
                store[j]
            }),
    decreases n,
{
    if n > 0 {
        lemma_apply_flush_ops(a, store, n - 1);
        let prev = spec_apply(store, spec_flush_ops(a, n - 1));
        match a[n - 1].staged {
            Some(v) => {
                assert(spec_flush_ops(a, n).drop_last() =~= spec_flush_ops(a, n - 1));
                assert(spec_flush_ops(a, n).last() == WriteOpV::Put(n - 1, v));
                assert(spec_apply(store, spec_flush_ops(a, n)) == apply_one(
                    prev,
                    WriteOpV::Put(n - 1, v),
                ));
            },
            None => {
                assert(spec_flush_ops(a, n) =~= spec_flush_ops(a, n - 1));
            },
        }
    }
}

/// After the erasure batch of the first `n` fields lands, slots `0 .. n-1`
/// are empty and every other slot is untouched.
pub proof fn lemma_apply_delete_ops(store: Seq<Option<Seq<u8>>>, n: int)
    requires
        0 <= n <= store.len(),
    ensures
        spec_apply(store, spec_delete_ops(n)).len() == store.len(),
        forall|j: int|
            0 <= j < store.len() ==> #[trigger] spec_apply(store, spec_delete_ops(n))[j] == (
            if j < n {
                None::<Seq<u8>>
            } else {
                store[j]
            }),
    decreases n,
{
    if n > 0 {
        lemma_apply_delete_ops(store, n - 1);
        assert(spec_delete_ops(n).drop_last() =~= spec_delete_ops(n - 1));
        assert(spec_delete_ops(n).last() == WriteOpV::Delete(n - 1));
    }
}

/// Law: the save/load round trip is lossless. For an aggregate loaded from a
/// scope image and since mutated only by staging (its loaded contents are
/// still those of the image), a fresh load after `save` reconstructs exactly
/// the contents the aggregate held in memory before persistence, so the
/// digest input of the fresh load equals the digest input computed before
/// persistence.
pub proof fn lemma_save_then_load_preserves_digest(
    a: Seq<RegisterModelV>,
    store: Seq<Option<Seq<u8>>>,
)
    requires
        a.len() == store.len(),
        forall|i: int| 0 <= i < a.len() ==> (#[trigger] a[i]).value == slot_value(store[i]),
    ensures
        values_of(spec_load(spec_apply(store, spec_flush_ops(a, a.len() as int))))
            == current_values(a),
        absorbed(current_values(spec_load(spec_apply(store, spec_flush_ops(a, a.len() as int)))))
            == absorbed(current_values(a)),
{
    let n = a.len() as int;
    lemma_apply_flush_ops(a, store, n);
    let store2 = spec_apply(store, spec_flush_ops(a, n));
    assert forall|i: int| 0 <= i < n implies values_of(spec_load(store2))[i] == current_values(
        a,
    )[i] by {
        assert(a[i].value == slot_value(store[i]));
        match a[i].staged {
            Some(v) => {
                assert(store2[i] == Some(staged_or_value(a[i])));
            },
            None => {
                assert(store2[i] == store[i]);
            },
        }
    }
    assert(values_of(spec_load(store2)) =~~= current_values(a));
    assert forall|i: int| 0 <= i < n implies current_values(spec_load(store2))[i] == values_of(
        spec_load(store2),
    )[i] by {
        assert(spec_load(store2)[i].staged is None);
    }
    assert(current_values(spec_load(store2)) =~~= values_of(spec_load(store2)));
}

/// Law: `write_delete` followed by a fresh load finds no previously written
/// field data — every slot of the aggregate's scope is empty, and every
/// loaded field holds the default content.
pub proof fn lemma_write_delete_then_load_finds_nothing(store: Seq<Option<Seq<u8>>>)
    ensures
        forall|j: int|
            0 <= j < store.len() ==> #[trigger] spec_apply(
                store,
                spec_delete_ops(store.len() as int),
            )[j] is None,
        forall|j: int|
            0 <= j < store.len() ==> #[trigger] spec_load(
                spec_apply(store, spec_delete_ops(store.len() as int)),
            )[j].value == Seq::<u8>::empty(),
{
    lemma_apply_delete_ops(store, store.len() as int);
}

} // verus!
