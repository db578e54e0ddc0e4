use only_one::one::{EmptyAccess, One};

#[test]
fn presence_after_construction() {
    let with_value = One::new(42);
    assert!(One::present(&with_value));

    let empty = One::<i32>::none();
    assert!(!One::present(&empty));
}

#[test]
fn read_write_transparency() {
    let mut slot = One::new(10);
    assert_eq!(*One::read(&slot), 10);

    *One::write(&mut slot) = 20;
    assert_eq!(*One::read(&slot), 20);
    assert!(One::present(&slot));
}

#[test]
fn extraction_returns_and_empties() {
    let mut slot = One::new(7);
    let value = One::take(&mut slot);
    assert_eq!(value, 7);
    assert!(!One::present(&slot));
}

#[test]
fn extraction_is_exactly_once() {
    let mut slot = One::new(5);
    assert_eq!(One::take(&mut slot), 5);

    assert_eq!(One::try_take(&mut slot), Err(EmptyAccess));
    assert_eq!(One::try_read(&slot), Err(EmptyAccess));
    assert!(One::try_write(&mut slot).is_err());
}

#[test]
fn empty_slot_never_accessible() {
    let mut slot = One::<i32>::none();
    assert_eq!(One::try_read(&slot), Err(EmptyAccess));
    assert!(One::try_write(&mut slot).is_err());
    assert_eq!(One::try_take(&mut slot), Err(EmptyAccess));
    assert!(!One::present(&slot));
}

#[test]
fn equal_slots_compare_equal() {
    assert_eq!(One::new(3), One::new(3));
    assert_ne!(One::new(3), One::new(4));
    assert_ne!(One::new(3), One::<i32>::none());
    assert_eq!(One::<i32>::none(), One::<i32>::none());
}

#[test]
fn conversion_matches_construction() {
    let converted = One::from(9);
    let constructed = One::new(9);
    assert_eq!(One::present(&converted), One::present(&constructed));
    assert_eq!(*One::read(&converted), *One::read(&constructed));
    assert_eq!(converted, constructed);
}

#[test]
fn holds_string_and_reads_back() {
    let slot = One::new("hello".to_string());
    assert!(One::present(&slot));
    assert_eq!(One::read(&slot), "hello");
}

#[test]
fn write_then_take() {
    let mut slot = One::new(1);
    *One::write(&mut slot) = 2;
    assert_eq!(One::take(&mut slot), 2);
    assert!(!One::present(&slot));
}

#[test]
fn take_twice_reports_empty_access() {
    let mut slot = One::new(1);
    assert_eq!(One::take(&mut slot), 1);
    assert_eq!(One::try_take(&mut slot), Err(EmptyAccess));
}

#[test]
fn empty_read_reports_empty_access() {
    let slot = One::<i32>::none();
    assert_eq!(One::try_read(&slot), Err(EmptyAccess));
}

#[test]
fn converted_vec_equals_constructed() {
    let constructed = One::new(vec![1, 2, 3]);
    let converted = One::from(vec![1, 2, 3]);
    assert_eq!(constructed, converted);
}

#[test]
fn default_is_empty() {
    let slot = One::<i32>::default();
    assert!(!One::present(&slot));
    assert_eq!(slot, One::<i32>::none());
}

#[test]
fn empty_access_names_the_cause() {
    assert_eq!(EmptyAccess.message(), "Value taken already.");
}

#[test]
fn ordering_follows_the_optional() {
    assert!(One::<i32>::none() < One::new(0));
    assert!(One::new(1) < One::new(2));
    assert!(One::new(2) <= One::new(2));
}

#[test]
fn copies_and_clones_keep_the_value() {
    let slot = One::new(6);
    let copy = slot;
    assert_eq!(slot, copy);
    let cloned = One::new("text".to_string()).clone();
    assert_eq!(One::read(&cloned), "text");
}
