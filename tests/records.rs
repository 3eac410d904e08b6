use macros::record::{Record, RecordBuilder};

#[test]
fn constructor_stores_each_value_in_its_field() {
    let r = Record::new(vec![3i64, 4]);
    assert_eq!(r.len(), 2);
    assert_eq!(*r.get(0), 3);
    assert_eq!(*r.get(1), 4);
}

#[test]
fn accessor_reads_the_latest_write() {
    let mut r = Record::new(vec!["a".to_string(), "b".to_string()]);
    r.set(1, "c".to_string());
    assert_eq!(r.get(1), "c");
    assert_eq!(r.get(1), "c");
    assert_eq!(r.get(0), "a");
    assert_eq!(r.into_values(), vec!["a".to_string(), "c".to_string()]);
}

#[test]
fn point_builder_equals_constructor() {
    let built = RecordBuilder::required(2).set(0, 3i64).set(1, 4).build().ok().unwrap();
    assert_eq!(built.into_values(), Record::new(vec![3i64, 4]).into_values());
}

#[test]
fn builder_setter_order_does_not_matter() {
    let built = RecordBuilder::required(3).set(2, 30u32).set(0, 10).set(1, 20).build().ok().unwrap();
    assert_eq!(built.into_values(), vec![10, 20, 30]);
}

#[test]
fn point_builder_without_y_fails() {
    let e = RecordBuilder::required(2).set(0, 3i64).build().err().unwrap();
    assert_eq!(e.index, 1);
}

#[test]
fn missing_field_names_the_first_one() {
    let e = RecordBuilder::<u8>::required(3).set(1, 7).build().err().unwrap();
    assert_eq!(e.index, 0);
}

#[test]
fn defaults_fill_unset_fields() {
    let b = RecordBuilder::new(vec![None, Some(5u16)]);
    assert_eq!(b.len(), 2);
    let built = b.set(0, 1).build().ok().unwrap();
    assert_eq!(built.into_values(), vec![1, 5]);
    let overridden = RecordBuilder::new(vec![None, Some(5u16)]).set(1, 9).set(0, 2).build().ok().unwrap();
    assert_eq!(overridden.into_values(), vec![2, 9]);
}

#[test]
fn zero_field_builder_always_builds() {
    let built = RecordBuilder::<u8>::required(0).build().ok().unwrap();
    assert_eq!(built.len(), 0);
}
