use rust_demos::demos::d07_type_system::TypeSystemDemo;
use rust_demos::demos::d10_unsafe::UnsafeDemo;

#[test]
fn mod_test_reset() {
    let mut d = TypeSystemDemo::new();
    d.step = 4;
    d.tick_count = 100;
    d.reset();
    assert_eq!(d.step, 0);
    assert_eq!(d.tick_count, 0);
    assert!(!d.is_paused());

    let mut d = UnsafeDemo::new();
    d.step = 3;
    d.tick_count = 77;
    d.ptr_offset = 5;
    d.reset();
    assert_eq!(d.step, 0);
    assert_eq!(d.tick_count, 0);
    assert_eq!(d.ptr_offset, 0);
    assert!(!d.is_paused());
}

#[test]
fn mod_test_default() {
    let d = TypeSystemDemo::default();
    assert_eq!(d.step, 0);

    let d = UnsafeDemo::default();
    assert_eq!(d.step, 0);
    assert_eq!(d.ptr_offset, 0);
}
