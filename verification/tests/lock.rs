use spinring::spin::SpinLock;

#[test]
fn test_lock_roundtrip() {
    let mut spin = SpinLock::new(5);
    spin.lock();
    assert_eq!(*spin.read(), 5);
    spin.write(6);
    assert_eq!(*spin.read(), 6);
    spin.unlock();
    assert_eq!(spin.take(), 6);
    // take leaves the default value behind
    assert_eq!(spin.take(), 0);
}

#[test]
fn test_take_collects_all() {
    // Several writers in turn each add one distinct number under the lock;
    // take() then returns every update at once and leaves the guarded state
    // empty.
    let mut spin = SpinLock::new(vec![1, 2, 3]);

    for i in 4..10 {
        spin.lock();
        let mut current = spin.read().clone();
        current.push(i);
        spin.write(current);
        spin.unlock();
    }

    let mut result = spin.take();
    result.sort();
    assert_eq!(result, vec![1, 2, 3, 4, 5, 6, 7, 8, 9]);

    let leftover: Vec<i32> = spin.take();
    assert!(leftover.is_empty());
}

#[test]
fn test_replace_hands_off() {
    let mut spin = SpinLock::new(String::from("before"));
    let previous = spin.replace(String::from("after"));
    assert_eq!(previous, "before");
    assert_eq!(spin.take(), "after");
}
