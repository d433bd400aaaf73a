use vector_demo::{load_weights, put_vector, read_vector, TestModel};

fn bits(v: &[f64]) -> Vec<u64> {
    v.iter().map(|x| x.to_bits()).collect()
}

#[test]
fn fresh_slot_reads_empty() {
    let model: TestModel<f64> = TestModel::new();
    let v = read_vector(&model);
    assert_eq!(v.len(), 0);
    assert_eq!(v, Vec::<f64>::new());
}

#[test]
fn write_then_read_gives_the_same_values() {
    let mut model: TestModel<f64> = TestModel::new();
    let v = vec![0.0, -0.0, 1.5, -273.15, 510.0, f64::MAX, f64::MIN_POSITIVE, f64::INFINITY, f64::NAN];
    put_vector(&mut model, v.clone());
    assert_eq!(bits(&read_vector(&model)), bits(&v));
}

#[test]
fn write_replaces_the_whole_contents() {
    let mut model: TestModel<f64> = TestModel::new();
    put_vector(&mut model, vec![1.0, 2.0, 3.0, 4.0, 5.0]);
    put_vector(&mut model, vec![9.5, 8.5]);
    assert_eq!(read_vector(&model), vec![9.5, 8.5]);
    put_vector(&mut model, vec![7.0, 7.0, 7.0]);
    assert_eq!(read_vector(&model), vec![7.0, 7.0, 7.0]);
}

#[test]
fn write_takes_any_length() {
    let mut model: TestModel<f64> = TestModel::new();
    put_vector(&mut model, vec![2.5]);
    assert_eq!(read_vector(&model), vec![2.5]);
    let long: Vec<f64> = (0..2000).map(|i| i as f64 * 0.25).collect();
    put_vector(&mut model, long.clone());
    assert_eq!(read_vector(&model), long);
    put_vector(&mut model, Vec::new());
    assert_eq!(read_vector(&model).len(), 0);
}

#[test]
fn writing_the_same_vector_twice_changes_nothing() {
    let mut model: TestModel<f64> = TestModel::new();
    put_vector(&mut model, vec![3.0, 1.0, 4.0]);
    let once = read_vector(&model);
    put_vector(&mut model, vec![3.0, 1.0, 4.0]);
    assert_eq!(read_vector(&model), once);
    assert_eq!(once, vec![3.0, 1.0, 4.0]);
}

#[test]
fn reading_does_not_change_the_slot() {
    let mut model: TestModel<f64> = TestModel::new();
    put_vector(&mut model, vec![6.0, 28.0]);
    let first = read_vector(&model);
    let second = read_vector(&model);
    assert_eq!(first, vec![6.0, 28.0]);
    assert_eq!(second, first);
}

#[test]
fn load_weights_leaves_a_fresh_slot_empty() {
    let mut model: TestModel<f64> = TestModel::new();
    load_weights(&mut model, vec![1.0, 2.0, 3.0]);
    assert_eq!(read_vector(&model).len(), 0);
}

#[test]
fn load_weights_leaves_a_written_slot_as_it_was() {
    let mut model: TestModel<f64> = TestModel::new();
    put_vector(&mut model, vec![10.0, 20.0]);
    load_weights(&mut model, vec![1.0, 2.0, 3.0]);
    assert_eq!(read_vector(&model), vec![10.0, 20.0]);
    load_weights(&mut model, Vec::new());
    assert_eq!(read_vector(&model), vec![10.0, 20.0]);
}

#[test]
fn slot_holds_other_element_types_too() {
    let mut model: TestModel<u8> = TestModel::new();
    put_vector(&mut model, vec![0, 127, 255]);
    assert_eq!(read_vector(&model), vec![0, 127, 255]);
}
