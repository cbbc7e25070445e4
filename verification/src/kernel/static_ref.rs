use vstd::prelude::*;
use core::marker::PhantomData;

verus! {

/// The address of statically allocated data such as a memory mapped
/// register block of type `T`.
pub struct StaticRef<T> {
    pub addr: usize,
    pub marker: PhantomData<T>,
}

impl<T> StaticRef<T> {
    /// The register block at `addr`, which must not be null and must be
    /// aligned for `T`.
    pub fn at(addr: usize) -> (r: StaticRef<T>)
        requires
            addr != 0,
            addr % vstd::layout::align_of_as_usize::<T>() == 0,
        ensures
            r.addr == addr,
    {
        StaticRef { addr, marker: PhantomData }
    }

    /// Where the data is.
    pub fn address(&self) -> (a: usize)
        ensures
            a == self.addr,
    {
        self.addr
    }
}

impl<T> Clone for StaticRef<T> {
    fn clone(&self) -> (r: Self)
        ensures
            r.addr == self.addr,
    {
        StaticRef { addr: self.addr, marker: PhantomData }
    }
}

} // verus!
