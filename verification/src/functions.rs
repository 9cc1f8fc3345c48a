//! Functions of a module owned by the Binaryen C library.

use std::marker::PhantomData;

use vstd::prelude::*;

verus! {

/// A function of a Binaryen module, known by its address in the C library; the
/// lifetime ties it to the module that owns it.
pub struct Function<'a> {
    raw: usize,
    _p: PhantomData<&'a ()>,
}

impl<'a> Function<'a> {
    /// The address of the function.
    pub closed spec fn address(&self) -> usize {
        self.raw
    }

    /// The function at address `raw`.
    pub fn from_raw(raw: usize) -> (f: Function<'a>)
        ensures
            f.address() == raw,
    {
        Function { raw, _p: PhantomData }
    }

    /// The function at address `raw`, where `raw` is not the null address 0.
    pub fn from_nullable(raw: usize) -> (f: Option<Function<'a>>)
        ensures
            f is None <==> raw == 0,
            f matches Some(g) ==> g.address() == raw,
    {
        if raw == 0 {
            None
        } else {
            Some(Function::from_raw(raw))
        }
    }

    /// The address of the function.
    pub fn raw(&self) -> (r: usize)
        ensures
            r == self.address(),
    {
        self.raw
    }
}

} // verus!
