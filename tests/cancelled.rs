use visa_rs::cancelled::{RecentlyCancelled, CANCELLED_CAPACITY};
use visa_rs::JobID;

#[test]
fn cancelled_set_evicts_oldest_beyond_capacity() {
    let mut set = RecentlyCancelled::new(CANCELLED_CAPACITY);
    for i in 0..(CANCELLED_CAPACITY as u32 + 1) {
        set.insert(JobID(100 + i));
        assert!(set.len() <= set.capacity());
    }
    assert_eq!(set.len(), CANCELLED_CAPACITY);
    assert!(!set.contains(JobID(100)));
    assert!(set.contains(JobID(101)));
    assert!(set.contains(JobID(100 + CANCELLED_CAPACITY as u32)));
}

#[test]
fn cancelled_set_reinsert_refreshes() {
    let mut set = RecentlyCancelled::new(3);
    set.insert(JobID(1));
    set.insert(JobID(2));
    set.insert(JobID(3));
    set.insert(JobID(1));
    assert_eq!(set.len(), 3);
    set.insert(JobID(4));
    assert!(!set.contains(JobID(2)));
    assert!(set.contains(JobID(1)));
    assert!(set.contains(JobID(3)));
    assert!(set.contains(JobID(4)));
}

#[test]
fn cancelled_set_remove() {
    let mut set = RecentlyCancelled::new(4);
    set.insert(JobID(8));
    set.insert(JobID(9));
    set.remove(JobID(8));
    assert!(!set.contains(JobID(8)));
    assert!(set.contains(JobID(9)));
    assert_eq!(set.len(), 1);
    set.remove(JobID(8));
    assert_eq!(set.len(), 1);
}

#[test]
fn cancelled_set_of_capacity_zero_stays_empty() {
    let mut set = RecentlyCancelled::new(0);
    set.insert(JobID(5));
    assert_eq!(set.len(), 0);
    assert!(!set.contains(JobID(5)));
}
