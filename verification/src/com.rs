//! An owning handle to a reference-counted foreign interface.
//!
//! A foreign polymorphic object hands out interface pointers and counts the
//! references held on it; whoever holds a reference owes it exactly one
//! release. [`ComPtr`] owns exactly one such reference and gives it up only
//! through [`ComPtr::release`], which consumes the handle, so a reference
//! cannot be counted down twice or behind the owner's back. The foreign side
//! is reached through the [`RawUnknown`] trait — the base capability set of
//! counting a reference up and down and asking for another interface — which
//! the foreign object families implement outside this crate.

use vstd::prelude::*;

verus! {

/// A capability identifier: the 128-bit globally unique value under which a
/// foreign object is asked for one of its interfaces.
#[derive(Clone, Copy, PartialEq, Eq, Structural, Debug)]
pub struct Guid {
    pub data1: u32,
    pub data2: u16,
    pub data3: u16,
    pub data4: u64,
}

/// The erased pointer to a reference-counted foreign object, carrying the
/// base capability set that every interface reaches: counting a reference up
/// and down, and asking for another interface by its identifier.
///
/// Implementations live outside this crate, next to the foreign objects they
/// point at. The contracts state what this crate assumes of any such
/// implementation: `addr` reports the pointer's stable identity (0 for the
/// null pointer), and a successful `query_interface` hands out a non-null
/// pointer carrying one fresh reference, as the foreign query call promises.
/// Nothing is assumed about the count itself: it lives in the foreign
/// object.
pub trait RawUnknown: Sized + Copy {
    /// The address the pointer holds; 0 for the null pointer.
    spec fn spec_addr(self) -> usize;

    fn addr(&self) -> (r: usize)
        ensures
            r == self.spec_addr(),
    ;

    /// The null pointer.
    fn null() -> (r: Self)
        ensures
            r.spec_addr() == 0,
    ;

    /// Counts one reference up on the foreign object.
    fn add_ref(&self)
        requires
            self.spec_addr() != 0,
    ;

    /// Counts one reference down on the foreign object, releasing the object
    /// when it was the last one.
    fn release(&self)
        requires
            self.spec_addr() != 0,
    ;

    /// Asks the foreign object for the interface named by `iid`. On success
    /// the returned pointer is non-null and carries one fresh reference owed
    /// to the caller; on failure the negative status code comes back and no
    /// reference changes hands.
    fn query_interface(&self, iid: &Guid) -> (r: Result<Self, i32>)
        requires
            self.spec_addr() != 0,
        ensures
            r matches Ok(q) ==> q.spec_addr() != 0,
            r matches Err(e) ==> e < 0,
    ;
}

/// An interface of a foreign object family: a marker type naming the
/// capability identifier under which the object hands this interface out.
/// All interfaces of one family share one pointer representation `Raw`.
pub trait ComInterface: Sized {
    type Raw: RawUnknown;

    /// The capability identifier of this interface.
    spec fn spec_iid() -> Guid;

    fn iid() -> (r: Guid)
        ensures
            r == Self::spec_iid(),
    ;
}

/// Marks `Self` as an interface that extends `U`, so that a pointer to
/// `Self` is also a pointer to `U`. The relation is declared per interface
/// pair, as the foreign type system defines it, and makes
/// [`ComPtr::up`] a purely type-level reinterpretation.
pub trait Upcast<U>: ComInterface {
}

/// An owning handle to one reference on a reference-counted foreign object,
/// seen through the interface `T`.
///
/// A live handle is never null and owns exactly one reference: adopting a
/// pointer takes the reference over as it is, cloning counts a new one, and
/// [`ComPtr::release`] consumes the handle and counts exactly the one owned
/// reference down. The object itself may have any number of other holders;
/// their references are none of this handle's business.
pub struct ComPtr<T: ComInterface> {
    raw: T::Raw,
}

impl<T: ComInterface> ComPtr<T> {
    /// A live handle always holds a non-null pointer.
    #[verifier::type_invariant]
    spec fn type_inv(self) -> bool {
        self.raw.spec_addr() != 0
    }

    /// The address of the foreign object this handle owns a reference on.
    pub closed spec fn spec_addr(self) -> usize {
        self.raw.spec_addr()
    }

    /// Wraps `raw`, taking ownership of one reference already owed to the
    /// caller: no reference is counted up. A null pointer yields `None`.
    pub fn new(raw: T::Raw) -> (r: Option<ComPtr<T>>)
        ensures
            r is Some <==> raw.spec_addr() != 0,
            r matches Some(p) ==> p.spec_addr() == raw.spec_addr(),
    {
        if raw.addr() == 0 {
            None
        } else {
            Some(ComPtr { raw })
        }
    }

    /// Wraps `raw`, taking ownership of one reference already owed to the
    /// caller: no reference is counted up. The pointer must not be null;
    /// handing a null pointer here is a caller error, not a recoverable
    /// outcome — callers that may legitimately see null use
    /// [`ComPtr::new`].
    pub fn from_raw(raw: T::Raw) -> (r: ComPtr<T>)
        requires
            raw.spec_addr() != 0,
        ensures
            r.spec_addr() == raw.spec_addr(),
    {
        ComPtr { raw }
    }

    /// Calls `fun` — a foreign factory — with `T`'s capability identifier;
    /// `fun` returns the status it got and whatever the factory left in its
    /// output slot. On status 0 the slot holds a non-null pointer carrying
    /// one reference, which the new handle adopts; `fun` must guarantee that
    /// much, as the factory contract does. On any other status the call
    /// failed and the status is passed on — and if the factory nonetheless
    /// left a non-null pointer behind, that stray reference is released
    /// first, so a half-initialized outcome cannot leak.
    pub fn from_fn<F: FnOnce(Guid) -> (i32, T::Raw)>(fun: F) -> (r: Result<ComPtr<T>, i32>)
        requires
            call_requires(fun, (T::spec_iid(),)),
            forall|out: (i32, T::Raw)|
                call_ensures(fun, (T::spec_iid(),), out) && out.0 == 0 ==> out.1.spec_addr() != 0,
        ensures
            r matches Ok(p) ==> exists|out: (i32, T::Raw)|
                call_ensures(fun, (T::spec_iid(),), out) && out.0 == 0 && p.spec_addr()
                    == out.1.spec_addr(),
            r matches Err(e) ==> e != 0 && exists|out: (i32, T::Raw)|
                call_ensures(fun, (T::spec_iid(),), out) && out.0 == e,
    {
        let (status, raw) = fun(T::iid());
        if status == 0 {
            Ok(ComPtr { raw })
        } else {
            if raw.addr() != 0 {
                raw.release();
            }
            Err(status)
        }
    }

    /// Like [`ComPtr::from_fn`], for a foreign factory that fills two output
    /// slots in one call. On status 0 both slots hold non-null pointers,
    /// each carrying one reference, and both are adopted. On any other
    /// status, whichever slots the factory nonetheless filled are released
    /// before the status is passed on.
    pub fn pair_from_fn<U, F>(fun: F) -> (r: Result<(ComPtr<T>, ComPtr<U>), i32>) where
        U: ComInterface,
        F: FnOnce(Guid, Guid) -> (i32, T::Raw, U::Raw),
        requires
            call_requires(fun, (T::spec_iid(), U::spec_iid())),
            forall|out: (i32, T::Raw, U::Raw)|
                call_ensures(fun, (T::spec_iid(), U::spec_iid()), out) && out.0 == 0
                    ==> out.1.spec_addr() != 0 && out.2.spec_addr() != 0,
        ensures
            r matches Ok(p) ==> exists|out: (i32, T::Raw, U::Raw)|
                call_ensures(fun, (T::spec_iid(), U::spec_iid()), out) && out.0 == 0
                    && p.0.spec_addr() == out.1.spec_addr() && p.1.spec_addr()
                    == out.2.spec_addr(),
            r matches Err(e) ==> e != 0 && exists|out: (i32, T::Raw, U::Raw)|
                call_ensures(fun, (T::spec_iid(), U::spec_iid()), out) && out.0 == e,
    {
        let (status, raw1, raw2) = fun(T::iid(), U::iid());
        if status == 0 {
            Ok((ComPtr { raw: raw1 }, ComPtr { raw: raw2 }))
        } else {
            if raw1.addr() != 0 {
                raw1.release();
            }
            if raw2.addr() != 0 {
                raw2.release();
            }
            Err(status)
        }
    }

    /// Casts up the inheritance chain: reinterprets the handle as the
    /// interface `U` that `T` extends. The owned reference moves to the new
    /// handle; the count is untouched.
    pub fn up<U>(self) -> (r: ComPtr<U>) where T: Upcast<U>, U: ComInterface<Raw = T::Raw>
        ensures
            r.spec_addr() == self.spec_addr(),
    {
        let raw = self.into_raw();
        ComPtr { raw }
    }

    /// Hands the pointer back to the caller without counting the reference
    /// down: the caller now owes exactly one release.
    pub fn into_raw(self) -> (r: T::Raw)
        ensures
            r.spec_addr() == self.spec_addr(),
            r.spec_addr() != 0,
    {
        proof {
            use_type_invariant(&self);
        }
        let ComPtr { raw } = self;
        raw
    }

    /// Asks the foreign object for the interface `U`, under `U`'s capability
    /// identifier. On success the new handle owns the fresh reference the
    /// query produced — none is counted up on top — and this handle stays
    /// valid and owned by the caller either way. On failure the negative
    /// status code comes back.
    pub fn cast<U: ComInterface<Raw = T::Raw>>(&self) -> (r: Result<ComPtr<U>, i32>)
        ensures
            r matches Ok(p) ==> p.spec_addr() != 0,
            r matches Err(e) ==> e < 0,
    {
        proof {
            use_type_invariant(self);
        }
        let iid = U::iid();
        match self.raw.query_interface(&iid) {
            Ok(q) => Ok(ComPtr { raw: q }),
            Err(e) => Err(e),
        }
    }

    /// The pointer, with ownership staying here: the caller must not release
    /// what it is handed.
    pub fn as_raw(&self) -> (r: T::Raw)
        ensures
            r.spec_addr() == self.spec_addr(),
            r.spec_addr() != 0,
    {
        proof {
            use_type_invariant(self);
        }
        self.raw
    }

    /// Gives the one owned reference up: counts it down on the foreign
    /// object and consumes the handle, so no second release of the same
    /// reference can follow. Ends every handle's ownership, whether the
    /// handle came from adoption, a clone, a cast or a factory.
    pub fn release(self) {
        proof {
            use_type_invariant(&self);
        }
        let ComPtr { raw } = self;
        raw.release();
    }
}

impl<T: ComInterface> Clone for ComPtr<T> {
    /// Counts one reference up on the foreign object and adopts the same
    /// pointer: a second, independently owning handle to the same object.
    fn clone(&self) -> (r: Self)
        ensures
            r.spec_addr() == self.spec_addr(),
    {
        proof {
            use_type_invariant(self);
        }
        self.raw.add_ref();
        ComPtr { raw: self.raw }
    }
}

impl<T: ComInterface> PartialEq for ComPtr<T> {
    /// Identity equality: two handles are equal exactly when they point at
    /// the same foreign object, whatever interfaces they see it through.
    fn eq(&self, other: &Self) -> (r: bool) {
        self.raw.addr() == other.raw.addr()
    }
}

impl<T: ComInterface> vstd::std_specs::cmp::PartialEqSpecImpl for ComPtr<T> {
    open spec fn obeys_eq_spec() -> bool {
        true
    }

    open spec fn eq_spec(&self, other: &Self) -> bool {
        self.spec_addr() == other.spec_addr()
    }
}

} // verus!
