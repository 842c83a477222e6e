use std::cell::Cell;
use wio::com::{ComInterface, ComPtr, Guid, RawUnknown, Upcast};

/// A fake foreign object that counts the reference operations made on it.
struct MockObject {
    addr: usize,
    adds: Cell<u32>,
    rels: Cell<u32>,
    /// The capability identifier the object answers queries for.
    supports: Guid,
}

impl MockObject {
    /// The live reference count: one initial reference, plus what was
    /// counted up, minus what was counted down.
    fn count(&self) -> i64 {
        1 + self.adds.get() as i64 - self.rels.get() as i64
    }
}

fn guid_a() -> Guid {
    Guid { data1: 0xA11CE, data2: 1, data3: 2, data4: 3 }
}

fn guid_b() -> Guid {
    Guid { data1: 0xB0B, data2: 4, data3: 5, data4: 6 }
}

fn leak(addr: usize, supports: Guid) -> &'static MockObject {
    Box::leak(Box::new(MockObject {
        addr,
        adds: Cell::new(0),
        rels: Cell::new(0),
        supports,
    }))
}

#[derive(Clone, Copy)]
struct MockRaw(Option<&'static MockObject>);

impl RawUnknown for MockRaw {
    // the erased form of the trait's specification function; never called
    fn spec_addr(self) -> usize {
        match self.0 {
            Some(o) => o.addr,
            None => 0,
        }
    }

    fn addr(&self) -> usize {
        match self.0 {
            Some(o) => o.addr,
            None => 0,
        }
    }

    fn null() -> MockRaw {
        MockRaw(None)
    }

    fn add_ref(&self) {
        let o = self.0.unwrap();
        o.adds.set(o.adds.get() + 1);
    }

    fn release(&self) {
        let o = self.0.unwrap();
        o.rels.set(o.rels.get() + 1);
    }

    fn query_interface(&self, iid: &Guid) -> Result<MockRaw, i32> {
        let o = self.0.unwrap();
        if *iid == o.supports {
            o.adds.set(o.adds.get() + 1);
            Ok(MockRaw(self.0))
        } else {
            Err(-2147467262)
        }
    }
}

/// An interface marker the mock object supports.
struct IfaceA;

impl ComInterface for IfaceA {
    type Raw = MockRaw;

    // the erased form of the trait's specification function; never called
    fn spec_iid() -> Guid {
        guid_a()
    }

    fn iid() -> Guid {
        guid_a()
    }
}

/// An interface marker the mock object does not support; `IfaceA` extends it.
struct IfaceB;

impl ComInterface for IfaceB {
    type Raw = MockRaw;

    // the erased form of the trait's specification function; never called
    fn spec_iid() -> Guid {
        guid_b()
    }

    fn iid() -> Guid {
        guid_b()
    }
}

impl Upcast<IfaceB> for IfaceA {}

#[test]
fn adopt_then_release_returns_to_baseline() {
    let obj = leak(7, guid_a());
    // the object starts with one reference, owed to whoever adopts it
    let p: ComPtr<IfaceA> = ComPtr::from_raw(MockRaw(Some(obj)));
    assert_eq!(obj.count(), 1);
    assert_eq!(obj.rels.get(), 0);
    p.release();
    assert_eq!(obj.rels.get(), 1);
    assert_eq!(obj.count(), 0);
}

#[test]
fn clone_then_release_returns_to_baseline() {
    let obj = leak(7, guid_a());
    let p: ComPtr<IfaceA> = ComPtr::from_raw(MockRaw(Some(obj)));
    let q = p.clone();
    assert_eq!(obj.count(), 2);
    q.release();
    // the count went down by exactly one, not two
    assert_eq!(obj.count(), 1);
    // and the original is still usable
    assert_eq!(p.as_raw().addr(), 7);
    p.release();
    assert_eq!(obj.count(), 0);
}

#[test]
fn cast_to_same_interface_is_equal_but_independent() {
    let obj = leak(9, guid_a());
    let p: ComPtr<IfaceA> = ComPtr::from_raw(MockRaw(Some(obj)));
    let q: ComPtr<IfaceA> = p.cast::<IfaceA>().unwrap();
    // the query produced a fresh reference for the new wrapper
    assert_eq!(obj.count(), 2);
    // identity equality: same object, distinct wrappers
    assert!(p == q);
    // each wrapper's release is its own
    q.release();
    assert_eq!(obj.count(), 1);
    assert_eq!(p.as_raw().addr(), 9);
    p.release();
    assert_eq!(obj.count(), 0);
}

#[test]
fn cast_to_unsupported_interface_fails_and_keeps_owner() {
    let obj = leak(9, guid_a());
    let p: ComPtr<IfaceA> = ComPtr::from_raw(MockRaw(Some(obj)));
    let r: Result<ComPtr<IfaceB>, i32> = p.cast::<IfaceB>();
    assert_eq!(r.err().unwrap(), -2147467262);
    // the failed query changed no counts and the original stays owned
    assert_eq!(obj.count(), 1);
    p.release();
    assert_eq!(obj.count(), 0);
}

#[test]
fn from_fn_success_adopts_the_output() {
    let obj = leak(5, guid_a());
    let r: Result<ComPtr<IfaceA>, i32> = ComPtr::from_fn(|iid: Guid| {
        assert_eq!(iid, guid_a());
        // the factory hands over one reference: the initial one
        (0, MockRaw(Some(obj)))
    });
    let p = r.unwrap();
    assert_eq!(obj.count(), 1);
    assert_eq!(p.as_raw().addr(), 5);
    p.release();
    assert_eq!(obj.count(), 0);
}

#[test]
fn from_fn_failure_releases_stray_output() {
    let obj = leak(5, guid_a());
    let r: Result<ComPtr<IfaceA>, i32> = ComPtr::from_fn(|_iid: Guid| {
        // the factory reports failure yet still fills the output slot
        obj.adds.set(obj.adds.get() + 1);
        (-1, MockRaw(Some(obj)))
    });
    assert_eq!(r.err().unwrap(), -1);
    // exactly one release: the stray reference was cleaned up
    assert_eq!(obj.rels.get(), 1);
    assert_eq!(obj.count(), 1);
}

#[test]
fn from_fn_failure_with_null_output_releases_nothing() {
    let obj = leak(5, guid_a());
    let r: Result<ComPtr<IfaceA>, i32> = ComPtr::from_fn(|_iid: Guid| (3, MockRaw::null()));
    assert_eq!(r.err().unwrap(), 3);
    assert_eq!(obj.rels.get(), 0);
    assert_eq!(obj.count(), 1);
}

#[test]
fn pair_from_fn_success_adopts_both_outputs() {
    let first = leak(31, guid_a());
    let second = leak(32, guid_b());
    let r: Result<(ComPtr<IfaceA>, ComPtr<IfaceB>), i32> =
        ComPtr::pair_from_fn(|iid_a: Guid, iid_b: Guid| {
            assert_eq!(iid_a, guid_a());
            assert_eq!(iid_b, guid_b());
            (0, MockRaw(Some(first)), MockRaw(Some(second)))
        });
    let (p, q) = r.unwrap();
    assert_eq!(p.as_raw().addr(), 31);
    assert_eq!(q.as_raw().addr(), 32);
    p.release();
    q.release();
    assert_eq!(first.count(), 0);
    assert_eq!(second.count(), 0);
}

#[test]
fn pair_from_fn_failure_releases_every_filled_slot() {
    let first = leak(31, guid_a());
    let second = leak(32, guid_b());
    // the factory filled the first slot, then failed on the second
    let r: Result<(ComPtr<IfaceA>, ComPtr<IfaceB>), i32> =
        ComPtr::pair_from_fn(|_iid_a: Guid, _iid_b: Guid| {
            first.adds.set(first.adds.get() + 1);
            (-7, MockRaw(Some(first)), MockRaw::null())
        });
    assert_eq!(r.err().unwrap(), -7);
    assert_eq!(first.rels.get(), 1);
    assert_eq!(first.count(), 1);
    assert_eq!(second.rels.get(), 0);
}

#[test]
fn new_rejects_null_and_adopts_nonnull() {
    let none: Option<ComPtr<IfaceA>> = ComPtr::new(MockRaw::null());
    assert!(none.is_none());
    let obj = leak(11, guid_a());
    let some: Option<ComPtr<IfaceA>> = ComPtr::new(MockRaw(Some(obj)));
    let p = some.unwrap();
    assert_eq!(obj.count(), 1);
    p.release();
    assert_eq!(obj.count(), 0);
}

#[test]
fn into_raw_hands_the_reference_back() {
    let obj = leak(11, guid_a());
    let p: ComPtr<IfaceA> = ComPtr::from_raw(MockRaw(Some(obj)));
    let raw = p.into_raw();
    // nothing was released: the caller owes the release now
    assert_eq!(obj.rels.get(), 0);
    assert_eq!(raw.addr(), 11);
    let again: ComPtr<IfaceA> = ComPtr::from_raw(raw);
    again.release();
    assert_eq!(obj.count(), 0);
}

#[test]
fn up_keeps_the_reference_and_the_address() {
    let obj = leak(13, guid_a());
    let p: ComPtr<IfaceA> = ComPtr::from_raw(MockRaw(Some(obj)));
    let b: ComPtr<IfaceB> = p.up();
    // no count change: the one reference moved to the new handle
    assert_eq!(obj.count(), 1);
    assert_eq!(b.as_raw().addr(), 13);
    b.release();
    assert_eq!(obj.count(), 0);
}

#[test]
fn equality_is_by_address() {
    let obj = leak(21, guid_a());
    let other = leak(22, guid_a());
    let p: ComPtr<IfaceA> = ComPtr::from_raw(MockRaw(Some(obj)));
    let q: ComPtr<IfaceA> = ComPtr::from_raw(MockRaw(Some(other)));
    let r = p.clone();
    assert!(p == r);
    assert!(p != q);
    p.release();
    q.release();
    r.release();
}
