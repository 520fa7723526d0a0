//! Page-locked host memory, allocated by the driver under a context.
use vstd::prelude::*;

use crate::context::{Context, Contexted};

verus! {

/// The number of bytes that `size` elements of `T` take.
pub open spec fn bytes_for<T>(size: nat) -> nat {
    size * vstd::layout::size_of::<T>()
}

/// A buffer of `size` elements of `T` in page-locked host memory. It borrows
/// the context it was allocated under, which must outlive it; the address is
/// the one the driver handed out.
pub struct PageLockedMemory<'ctx, T> {
    addr: u64,
    size: usize,
    context: &'ctx Context,
    elem: core::marker::PhantomData<T>,
}

impl<'ctx, T> PageLockedMemory<'ctx, T> {
    /// The number of elements.
    pub closed spec fn spec_len(&self) -> nat {
        self.size as nat
    }

    /// The address of the first element.
    pub closed spec fn address(&self) -> u64 {
        self.addr
    }

    /// The context that the buffer was allocated under.
    pub closed spec fn context(&self) -> &'ctx Context {
        self.context
    }

    /// How many bytes to ask the driver for, to hold `size` elements: `None`
    /// where that does not fit in `usize`.
    pub fn request_bytes(size: usize) -> (r: Option<usize>)
        ensures
            r is Some <==> bytes_for::<T>(size as nat) <= usize::MAX,
            r is Some ==> r->0 == bytes_for::<T>(size as nat),
    {
        let elem = core::mem::size_of::<T>();
        size.checked_mul(elem)
    }

    /// Takes over `addr`, where the driver allocated page-locked memory for
    /// `size` elements while `context` was current. A buffer of no elements is
    /// a programming error.
    pub fn new(context: &'ctx Context, size: usize, addr: u64) -> (r: Self)
        requires
            size > 0,
            bytes_for::<T>(size as nat) <= usize::MAX,
        ensures
            r.spec_len() == size,
            r.address() == addr,
            r.context() == context,
            r.owner() == context.handle(),
            r.byte_spec_len() == bytes_for::<T>(size as nat),
    {
        PageLockedMemory { addr, size, context, elem: core::marker::PhantomData }
    }

    /// The number of bytes that the buffer takes.
    pub closed spec fn byte_spec_len(&self) -> nat {
        bytes_for::<T>(self.size as nat)
    }

    /// A buffer holds at least one element, and its byte length fits in `usize`.
    #[verifier::type_invariant]
    closed spec fn wf(&self) -> bool {
        &&& self.size > 0
        &&& bytes_for::<T>(self.size as nat) <= usize::MAX
    }

    /// The number of elements.
    pub fn len(&self) -> (r: usize)
        ensures
            r == self.spec_len(),
    {
        self.size
    }

    /// The number of bytes.
    pub fn byte_size(&self) -> (r: usize)
        ensures
            r == self.byte_spec_len(),
    {
        proof {
            use_type_invariant(self);
        }
        self.size * core::mem::size_of::<T>()
    }

    /// The address of the first element, to read the buffer or to hand it to a kernel.
    pub fn as_ptr(&self) -> (r: u64)
        ensures
            r == self.address(),
    {
        self.addr
    }
}

impl<'ctx, T> Contexted for PageLockedMemory<'ctx, T> {
    open spec fn owner(&self) -> u64 {
        self.context().handle()
    }

    fn get_context(&self) -> (r: &Context) {
        self.context
    }
}

} // verus!
