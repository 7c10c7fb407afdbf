//! Shared ownership of one address handed out by the native runtime.
//!
//! Every clone of a [`SharedHandle`] is one owner. Giving up ownership with
//! [`SharedHandle::release`] yields the address for exactly one native
//! deletion, to the last owner alone; the decision rests on one atomic
//! decrement-and-test of the shared owner count.
use std::sync::Arc;
use vstd::prelude::*;

verus! {

/// An address of a native resource; 0 is the null address.
pub struct NativeAddress {
    pub addr: usize,
}

/// Relies on std's `Arc::into_inner`: it drops one owner and yields the shared
/// value only when that owner was the last one; of calls made on every owner of
/// one allocation, exactly one yields the value.
#[verifier::external_body]
fn into_last_owner(a: Arc<NativeAddress>) -> (r: Option<NativeAddress>)
    ensures
        r matches Some(v) ==> v == *a,
{
    Arc::into_inner(a)
}

/// Relies on std's `Arc::clone`: the new owner shares the same value.
#[verifier::external_body]
fn add_owner(a: &Arc<NativeAddress>) -> (r: Arc<NativeAddress>)
    ensures
        *r == **a,
{
    Arc::clone(a)
}

/// The address to delete once the last owner is gone: none for the null address.
pub open spec fn address_to_delete(last: Option<NativeAddress>) -> Option<usize> {
    match last {
        Some(v) => if v.addr != 0 {
            Some(v.addr)
        } else {
            None
        },
        None => None,
    }
}

/// Decides the deletion once the owner count has been tested: `last` holds the
/// shared value when the owner that gave up was the last one.
pub fn deletion_target(last: Option<NativeAddress>) -> (r: Option<usize>)
    ensures
        r == address_to_delete(last),
{
    match last {
        Some(v) => if v.addr != 0 {
            Some(v.addr)
        } else {
            None
        },
        None => None,
    }
}

/// One owner of a native address.
pub struct SharedHandle {
    inner: Arc<NativeAddress>,
}

impl View for SharedHandle {
    type V = usize;

    closed spec fn view(&self) -> usize {
        self.inner.addr
    }
}

impl SharedHandle {
    /// Takes ownership of an address that a native constructor returned; the
    /// handle starts with one owner.
    pub fn adopt(addr: usize) -> (h: SharedHandle)
        ensures
            h@ == addr,
    {
        SharedHandle { inner: Arc::new(NativeAddress { addr }) }
    }

    /// The shared address, borrowed without affecting ownership.
    pub fn address(&self) -> (r: usize)
        ensures
            r == self@,
    {
        self.inner.addr
    }

    /// Gives up this owner. Returns the address to delete when this was the last
    /// owner and the address is not null, and `None` otherwise.
    pub fn release(self) -> (r: Option<usize>)
        ensures
            r matches Some(a) ==> a == self@ && a != 0,
    {
        deletion_target(into_last_owner(self.inner))
    }
}

impl Clone for SharedHandle {
    /// Adds an owner of the same address.
    fn clone(&self) -> (r: SharedHandle)
        ensures
            r@ == self@,
    {
        SharedHandle { inner: add_owner(&self.inner) }
    }
}

} // verus!
