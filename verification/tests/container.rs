use rsruckig::DataArrayOrVec;
use rsruckig::pow2;

#[test]
fn pow2_squares() {
    assert_eq!(pow2(0), 0);
    assert_eq!(pow2(7), 49);
    assert_eq!(pow2(-12), 144);
    assert_eq!(pow2(3037000499), 3037000499i64 * 3037000499);
}

#[test]
fn stack_storage_ignores_dofs() {
    let data: DataArrayOrVec<u64, 3> = DataArrayOrVec::new(Some(7), 5);
    assert_eq!(data.len(), 3);
    assert_eq!(data.get(0), Some(&5));
    assert_eq!(data.get(2), Some(&5));
    assert_eq!(data.get(3), None);
    assert_eq!(data.iter(), vec![5, 5, 5]);
}

#[test]
fn heap_storage_takes_dofs() {
    let data: DataArrayOrVec<u64, 0> = DataArrayOrVec::new(Some(4), 9);
    assert_eq!(data.len(), 4);
    assert_eq!(data.iter(), vec![9, 9, 9, 9]);
    let single: DataArrayOrVec<u64, 0> = DataArrayOrVec::new(None, 2);
    assert_eq!(single.len(), 1);
    assert_eq!(single.get(0), Some(&2));
}

#[test]
fn set_replaces_one_element() {
    let mut data: DataArrayOrVec<u64, 0> = DataArrayOrVec::new(Some(3), 0);
    data.set(1, 42);
    assert_eq!(data.iter(), vec![0, 42, 0]);
    let mut stack: DataArrayOrVec<u64, 2> = DataArrayOrVec::new(None, 1);
    stack.set(0, 8);
    assert_eq!(stack.iter(), vec![8, 1]);
}
