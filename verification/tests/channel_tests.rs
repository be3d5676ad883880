use capture_core::channel::SampleChannel;

#[test]
fn pops_in_arrival_order() {
    let mut c = SampleChannel::new(8);
    assert!(c.push(1));
    assert!(c.push(2));
    assert!(c.push(3));
    assert_eq!(c.pop(), Some(1));
    assert_eq!(c.pop(), Some(2));
    assert_eq!(c.pop(), Some(3));
    assert_eq!(c.pop(), None);
}

#[test]
fn full_channel_drops_the_newest_sample() {
    let mut c = SampleChannel::new(2);
    assert!(c.push(10));
    assert!(c.push(20));
    assert!(!c.push(30));
    assert_eq!(c.len(), 2);
    assert_eq!(c.pop(), Some(10));
    assert_eq!(c.pop(), Some(20));
    assert_eq!(c.pop(), None);
}

#[test]
fn empty_channel_reports_empty_and_pops_nothing() {
    let mut c = SampleChannel::new(4);
    assert!(c.is_empty());
    assert_eq!(c.len(), 0);
    assert_eq!(c.pop(), None);
    c.push(5);
    assert!(!c.is_empty());
}

#[test]
fn wraps_around_its_ring() {
    let mut c = SampleChannel::new(3);
    c.push(1);
    c.push(2);
    assert_eq!(c.pop(), Some(1));
    c.push(3);
    c.push(4);
    assert!(!c.push(5));
    assert_eq!(c.pop(), Some(2));
    assert_eq!(c.pop(), Some(3));
    assert_eq!(c.pop(), Some(4));
    assert_eq!(c.pop(), None);
}

#[test]
fn capacity_one_holds_one_sample() {
    let mut c = SampleChannel::new(1);
    assert!(c.push(42));
    assert!(!c.push(43));
    assert_eq!(c.pop(), Some(42));
    assert!(c.push(44));
    assert_eq!(c.pop(), Some(44));
}

#[test]
fn push_all_drops_what_overflows() {
    let mut c = SampleChannel::new(3);
    c.push_all(&vec![1, 2, 3, 4, 5]);
    assert_eq!(c.len(), 3);
    assert_eq!(c.pop(), Some(1));
    assert_eq!(c.pop(), Some(2));
    assert_eq!(c.pop(), Some(3));
    assert_eq!(c.pop(), None);
}
