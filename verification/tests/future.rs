use std::time::Duration;

#[test]
fn success() {
    let (setter, getter) = tiny_future::new::<u8>();

    // Set the result, then wait for it
    setter.set(7);
    assert_eq!(getter.wait(), Some(7), "Future has invalid result");
}

#[test]
fn success_timeout() {
    let (setter, getter) = tiny_future::new::<u8>();

    // Set the result
    setter.set(7);

    // Await the result
    let result = match getter.wait_timeout(Duration::from_secs(2)) {
        Ok(result) => result,
        Err(_) => panic!("Future has not been set in time"),
    };
    assert_eq!(result, Some(7), "Future has invalid result");
}

#[test]
fn timeout() {
    let (setter, getter) = tiny_future::new::<u8>();

    // Await the result for one second, while nothing sets it
    let result = getter.wait_timeout(Duration::from_secs(1));
    assert!(result.is_err(), "Future has been set too early");

    // Set it only afterwards
    setter.set(7);
}

#[test]
fn cancellation_setter() {
    let (setter, getter) = tiny_future::new::<u8>();

    // Drop the setter
    drop(setter);

    // Wait until the future is cancelled
    assert_eq!(getter.wait(), None, "Future has not been marked as cancelled on drop");
}

#[test]
fn cancellation_setter_timeout() {
    let (setter, getter) = tiny_future::new::<u8>();

    // Drop the setter
    drop(setter);

    // Wait until the future is cancelled
    let result = match getter.wait_timeout(Duration::from_secs(2)) {
        Ok(result) => result,
        Err(_) => panic!("Future has not been cancelled in time"),
    };
    assert_eq!(result, None, "Future has not been marked as cancelled on drop");
}

#[test]
fn cancellation_getter() {
    // Create futures
    let (setter, getter) = tiny_future::new::<u8>();

    // Drop the getter
    drop(getter);
    assert!(setter.is_cancelled(), "Future has not been cancelled on drop");
}
