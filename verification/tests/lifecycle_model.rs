use views_codegen::model::AggregateModel;
use views_codegen::model::StoreModel;
use views_codegen::model::WriteOp;

#[test]
fn round_trip_save_then_load_preserves_digest_input() {
    let mut store = StoreModel { slots: vec![Some(vec![1u8, 2]), None] };
    let mut agg = AggregateModel::load(&store);
    assert_eq!(agg.fields[0].value, vec![1u8, 2]);
    assert_eq!(agg.fields[1].value, Vec::<u8>::new());
    agg.set_field(0, vec![9u8, 9]);
    let before_persistence = agg.digest_input();
    agg.save(&mut store);
    assert_eq!(agg.digest_input(), before_persistence);
    let reloaded = AggregateModel::load(&store);
    assert_eq!(reloaded.digest_input(), before_persistence);
    assert_eq!(before_persistence, vec![9u8, 9]);
}

#[test]
fn clear_twice_is_clear_once() {
    let store = StoreModel { slots: vec![Some(vec![5u8]), Some(vec![6u8])] };
    let mut once = AggregateModel::load(&store);
    once.clear();
    let mut twice = AggregateModel::load(&store);
    twice.clear();
    twice.clear();
    assert_eq!(once, twice);
}

#[test]
fn rollback_without_pending_is_noop() {
    let store = StoreModel { slots: vec![Some(vec![5u8])] };
    let mut agg = AggregateModel::load(&store);
    let before = agg.clone();
    agg.rollback();
    assert_eq!(agg, before);
}

#[test]
fn rollback_discards_staged_mutations() {
    let store = StoreModel { slots: vec![Some(vec![5u8])] };
    let mut agg = AggregateModel::load(&store);
    let before = agg.clone();
    agg.set_field(0, vec![7u8]);
    agg.rollback();
    assert_eq!(agg, before);
}

#[test]
fn write_delete_then_load_finds_nothing() {
    let mut store = StoreModel { slots: vec![Some(vec![1u8]), Some(vec![2u8, 3])] };
    let agg = AggregateModel::load(&store);
    agg.write_delete(&mut store);
    assert_eq!(store.slots, vec![None, None]);
    let reloaded = AggregateModel::load(&store);
    assert!(reloaded
        .fields
        .iter()
        .all(|f| f.value.is_empty() && f.staged.is_none()));
}

#[test]
fn flush_appends_one_write_per_staged_field_in_order() {
    let store = StoreModel { slots: vec![None, None, None] };
    let mut agg = AggregateModel::load(&store);
    agg.set_field(2, vec![3u8]);
    agg.set_field(0, vec![1u8]);
    let mut batch: Vec<WriteOp> = Vec::new();
    agg.flush(&mut batch);
    assert_eq!(
        batch,
        vec![WriteOp::Put(0, vec![1u8]), WriteOp::Put(2, vec![3u8])]
    );
}
