use std::time::Duration;

use keytap::TapBuilder;

#[test]
fn builder_defaults() {
    let b = TapBuilder::default();
    assert_eq!(b.capacity, 4096);
    assert!(!b.unbounded);
    assert_eq!(b.linux_hotplug_interval, Duration::from_secs(1));
    assert!(!b.macos_no_repeat_detection);
    assert_eq!(b.shutdown_timeout, Duration::from_millis(500));
}

#[test]
fn builder_setters_change_one_field() {
    let b = TapBuilder::default()
        .capacity(16)
        .unbounded()
        .linux_hotplug_interval(Duration::from_millis(250))
        .macos_no_repeat_detection()
        .shutdown_timeout(Duration::from_secs(2));
    assert_eq!(b.capacity, 16);
    assert!(b.unbounded);
    assert_eq!(b.linux_hotplug_interval, Duration::from_millis(250));
    assert!(b.macos_no_repeat_detection);
    assert_eq!(b.shutdown_timeout, Duration::from_secs(2));
    let c = b.clone().capacity(8);
    assert_eq!(c.capacity, 8);
    assert!(c.unbounded);
    assert_eq!(b.capacity, 16);
}
