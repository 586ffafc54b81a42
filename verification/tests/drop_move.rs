use std::cell::RefCell;
use std::cmp::Ordering;
use std::collections::hash_map::DefaultHasher;
use std::hash::Hash;
use std::hash::Hasher;
use std::rc::Rc;

use drop_move::DropByValueWrapper;
use drop_move::DropGuard;
use drop_move::DropGuardInner;
use drop_move::DropHandle;
use drop_move::DropMoveWrapper;
use drop_move::FieldPair;
use drop_move::SinkGuard;
use drop_move::SinkGuardInner;

/// A payload whose own teardown records itself in a shared log.
struct Noisy {
    log: Rc<RefCell<Vec<&'static str>>>,
}

impl Drop for Noisy {
    fn drop(&mut self) {
        self.log.borrow_mut().push("field");
    }
}

fn hash_of<T: Hash>(t: &T) -> u64 {
    let mut h = DefaultHasher::new();
    t.hash(&mut h);
    h.finish()
}

#[test]
fn test_drop() {
    let mut x: u32 = 0;
    let z: u32 = 0xdeadbeef;
    let y = Box::<u32>::new(z);

    assert!(x != z);
    {
        let x_ref = &mut x;
        let f = move || *x_ref = *y;
        let guard = DropGuard::new(f);

        let f = guard.into_inner();
        DropGuard::new(f).finalize();
    }
    assert_eq!(x, z);
}

#[test]
fn test_get() {
    let mut x: u32 = 0;

    {
        let mut f = || x += 1;
        f();

        let mut guard = DropGuard::new(f);
        guard.borrow_mut()();
        guard.finalize();
    }

    assert_eq!(x, 3);
}

#[test]
fn return_to_sender() {
    let free_list: Rc<RefCell<Vec<Box<u32>>>> = Rc::new(RefCell::new(Vec::new()));

    let sink_list = free_list.clone();
    let rts = SinkGuard::new(
        Box::new(234u32),
        move |payload| sink_list.borrow_mut().push(payload),
    );
    assert!(free_list.borrow().len() == 0);

    rts.finalize();

    assert!(free_list.borrow().len() == 1);
    assert!(*free_list.borrow()[0] == 234);
}

#[test]
fn counter_runs_once_on_finalize() {
    let mut x: u32 = 0;
    {
        let y = Box::new(&mut x);
        let guard = DropGuard::new(move || **y += 1);
        guard.finalize();
    }
    assert_eq!(x, 1);
}

#[test]
fn reconstituted_value_discards_quietly() {
    let count = Rc::new(RefCell::new(0u32));

    let c = count.clone();
    let handle = DropHandle::new(DropGuardInner {
        func: move || {
            *c.borrow_mut() += 1;
        },
    });
    let outer = DropHandle::into_outer(handle);
    drop(outer);
    assert_eq!(*count.borrow(), 0);

    let c2 = count.clone();
    let handle = DropHandle::new(DropGuardInner {
        func: move || {
            *c2.borrow_mut() += 1;
        },
    });
    let outer = DropHandle::into_outer(handle);
    outer.finalize();
    assert_eq!(*count.borrow(), 1);
}

#[test]
fn release_tears_down_fields_without_finalizer() {
    let log: Rc<RefCell<Vec<&'static str>>> = Rc::new(RefCell::new(Vec::new()));

    let l = log.clone();
    let payload = Noisy { log: log.clone() };
    let handle = DropHandle::new(SinkGuardInner {
        payload,
        sink: move |p: Noisy| {
            l.borrow_mut().push("finalizer");
            drop(p);
        },
    });
    DropHandle::release(handle);

    assert_eq!(*log.borrow(), vec!["field"]);
}

#[test]
fn finalizer_effects_precede_field_teardown() {
    let log: Rc<RefCell<Vec<&'static str>>> = Rc::new(RefCell::new(Vec::new()));

    let l = log.clone();
    let payload = Noisy { log: log.clone() };
    let guard = SinkGuard::new(payload, move |p: Noisy| {
        l.borrow_mut().push("finalizer");
        drop(p);
    });
    guard.finalize();

    assert_eq!(*log.borrow(), vec!["finalizer", "field"]);
}

#[test]
fn consume_and_rewrap_round_trip() {
    let guard = SinkGuard::new(7u32, |_v: u32| {});
    let (payload, sink) = guard.into_inner();
    assert_eq!(payload, 7);

    let guard2 = SinkGuard::new(payload, sink);
    let (payload2, _sink2) = guard2.into_inner();
    assert_eq!(payload2, 7);
}

#[test]
fn handle_forwards_the_surface() {
    let count = Rc::new(RefCell::new(0u32));

    let c = count.clone();
    let handle = DropHandle::new(DropGuardInner {
        func: move || {
            *c.borrow_mut() += 1;
        },
    });
    let inner = DropHandle::into_inner(handle);
    (inner.func)();
    assert_eq!(*count.borrow(), 1);
}

#[test]
fn cell_extracts_exactly_once() {
    let count = Rc::new(RefCell::new(0u32));

    let c = count.clone();
    let w = DropMoveWrapper::new(DropGuardInner {
        func: move || {
            *c.borrow_mut() += 1;
        },
    });
    let inner = DropMoveWrapper::into_inner(w);
    (inner.func)();
    assert_eq!(*count.borrow(), 1);
}

#[test]
fn cloned_guard_runs_each_copy() {
    let count = Rc::new(RefCell::new(0u32));

    let c = count.clone();
    let guard = DropGuard::new(move || {
        *c.borrow_mut() += 1;
    });
    let copy = guard.clone();
    guard.finalize();
    assert_eq!(*count.borrow(), 1);
    copy.finalize();
    assert_eq!(*count.borrow(), 2);
}

#[test]
fn structural_pair_behaviours_agree() {
    let a = DropByValueWrapper::new(FieldPair { first: 1, second: 2 });
    let b = DropByValueWrapper::new(FieldPair { first: 1, second: 2 });
    let c = DropByValueWrapper::new(FieldPair { first: 1, second: 3 });
    let d = DropByValueWrapper::new(FieldPair { first: 0, second: 9 });

    assert!(a == b);
    assert_eq!(a.partial_cmp(&b), Some(Ordering::Equal));
    assert_eq!(a.cmp(&b), Ordering::Equal);
    assert_eq!(hash_of(&a), hash_of(&b));

    assert!(a != c);
    assert!(a < c);
    assert_eq!(a.partial_cmp(&c), Some(Ordering::Less));

    assert!(d < a);
    assert_eq!(a.partial_cmp(&d), Some(Ordering::Greater));
    assert_eq!(a.cmp(&d), Ordering::Greater);
}

#[test]
fn wrapper_forwards_and_destructures() {
    let w = DropByValueWrapper::new(5u32);
    assert_eq!(*w.borrow(), 5);
    let v = DropByValueWrapper::destructure(w);
    assert_eq!(v, 5);

    let w2: DropByValueWrapper<u32> = DropByValueWrapper::from(6u32);
    assert_eq!(DropByValueWrapper::destructure(w2), 6);

    let w3: DropByValueWrapper<u32> = Default::default();
    assert_eq!(DropByValueWrapper::destructure(w3), 0);

    let w4 = DropByValueWrapper::new(9u32);
    let w5 = w4.clone();
    assert!(w4 == w5);

    let mut w6 = DropByValueWrapper::new(1u32);
    *w6.borrow_mut() = 8;
    assert_eq!(DropByValueWrapper::destructure(w6), 8);
}
