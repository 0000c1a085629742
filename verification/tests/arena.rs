use multibody_scene::arena::{Arena, Handle};

#[test]
fn empty_arena_holds_nothing() {
    let a: Arena<u32> = Arena::new();
    assert!(!a.contains(Handle { index: 0, generation: 0 }));
    assert_eq!(a.get(Handle { index: 0, generation: 0 }), None);
    assert!(a.handles().is_empty());
}

#[test]
fn first_handles_count_up_from_zero() {
    let mut a: Arena<&str> = Arena::new();
    assert_eq!(a.insert("a"), Handle { index: 0, generation: 0 });
    assert_eq!(a.insert("b"), Handle { index: 1, generation: 0 });
    assert_eq!(a.insert("c"), Handle { index: 2, generation: 0 });
    assert_eq!(a.get(Handle { index: 1, generation: 0 }), Some(&"b"));
    assert_eq!(a.handles().len(), 3);
}

#[test]
fn removed_handle_names_nothing() {
    let mut a: Arena<u32> = Arena::new();
    let h = a.insert(7);
    let other = a.insert(8);
    assert_eq!(a.remove(h), Some(7));
    assert!(!a.contains(h));
    assert_eq!(a.get(h), None);
    assert_eq!(a.remove(h), None);
    assert_eq!(a.get(other), Some(&8));
    assert_eq!(a.handles(), vec![other]);
}

#[test]
fn stale_handle_stays_stale_when_its_place_is_taken() {
    let mut a: Arena<u32> = Arena::new();
    let old = a.insert(1);
    a.remove(old);
    let new = a.insert(2);
    assert_ne!(old, new);
    assert_eq!(new.index, old.index);
    assert!(new.generation > old.generation);
    assert_eq!(a.get(old), None);
    assert_eq!(a.get(new), Some(&2));
    assert!(a.get_mut(old).is_none());
    assert_eq!(a.remove(old), None);
    assert_eq!(a.get(new), Some(&2));
    for _ in 0..10 {
        let h = a.insert(3);
        assert_ne!(h, old);
        a.remove(h);
        assert_eq!(a.get(old), None);
    }
}

#[test]
fn handle_that_was_never_given_out() {
    let mut a: Arena<u32> = Arena::new();
    a.insert(1);
    assert!(!a.contains(Handle { index: 0, generation: 1 }));
    assert!(!a.contains(Handle { index: 1, generation: 0 }));
    assert!(!a.contains(Handle { index: usize::MAX, generation: u64::MAX }));
    assert_eq!(a.remove(Handle { index: 0, generation: 1 }), None);
    assert!(a.contains(Handle { index: 0, generation: 0 }));
}

#[test]
fn values_can_be_changed_in_place() {
    let mut a: Arena<Vec<u32>> = Arena::new();
    let h = a.insert(vec![1]);
    let other = a.insert(vec![9]);
    a.get_mut(h).unwrap().push(2);
    assert_eq!(a.get(h), Some(&vec![1, 2]));
    assert_eq!(a.get(other), Some(&vec![9]));
}

#[test]
fn handles_come_in_the_order_of_their_places() {
    let mut a: Arena<u32> = Arena::new();
    let h0 = a.insert(0);
    let h1 = a.insert(1);
    let h2 = a.insert(2);
    let h3 = a.insert(3);
    a.remove(h1);
    a.remove(h2);
    let h4 = a.insert(4);
    let live = a.handles();
    assert_eq!(live.len(), 3);
    assert_eq!(live[0], h0);
    assert_eq!(live[2], h3);
    assert_eq!(live[1], h4);
    assert!(live[0].index < live[1].index && live[1].index < live[2].index);
}
