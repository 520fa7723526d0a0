//! Loaded code modules, their entry points, and kernel launch shapes.
use vstd::prelude::*;
use vstd::string::StringSliceAdditionalSpecFns;

use crate::error::{status_result, AccelError};

verus! {

/// The bytes of `s` followed by a terminating zero, as the driver reads names.
pub open spec fn c_string_of(s: &str) -> Seq<u8> {
    s.spec_bytes().push(0u8)
}

/// The bytes of `s` with a terminating zero, to pass a path or a name to the driver.
pub fn str2cstring(s: &str) -> (r: Vec<u8>)
    ensures
        r@ == c_string_of(s),
{
    let bytes = s.as_bytes();
    let mut r: Vec<u8> = Vec::new();
    let mut i: usize = 0;
    while i < bytes.len()
        invariant
            bytes@ == s.spec_bytes(),
            i <= bytes@.len(),
            r@ == bytes@.subrange(0, i as int),
        decreases bytes@.len() - i,
    {
        r.push(bytes[i]);
        i = i + 1;
        assert(r@ =~= bytes@.subrange(0, i as int));
    }
    assert(r@ =~= bytes@);
    r.push(0u8);
    r
}

/// A code object loaded into a context.
#[derive(Debug)]
pub struct Module {
    handle: u64,
}

/// An entry point of a module. It borrows the module and cannot outlive it.
#[derive(Debug)]
pub struct Function<'m> {
    func: u64,
    module: &'m Module,
}

/// A three-dimensional extent.
#[derive(Debug, Clone, Copy, PartialEq, Eq, Structural)]
pub struct Dim3 {
    pub x: u32,
    pub y: u32,
    pub z: u32,
}

/// The shape of a block of threads.
#[derive(Debug, Clone, Copy, PartialEq, Eq, Structural)]
pub struct Block(pub Dim3);

/// The shape of a grid of blocks.
#[derive(Debug, Clone, Copy, PartialEq, Eq, Structural)]
pub struct Grid(pub Dim3);

/// What the driver needs to launch a kernel.
#[derive(Debug, Clone, Copy, PartialEq, Eq, Structural)]
pub struct Launch {
    /// The entry point.
    pub func: u64,
    pub grid: Dim3,
    pub block: Dim3,
    /// Bytes of dynamic shared memory.
    pub shared_mem_bytes: u32,
    /// The stream; zero is the default stream.
    pub stream: u64,
}

impl Module {
    /// The native handle.
    pub closed spec fn handle(&self) -> u64 {
        self.handle
    }

    /// The module that the driver loaded into `handle`, where its load call
    /// answered `status`.
    pub fn load(status: u32, handle: u64) -> (r: Result<Module, AccelError>)
        ensures
            status_result(status) is Ok <==> r is Ok,
            r is Ok ==> r->Ok_0.handle() == handle,
            r is Err ==> r == Err::<Module, AccelError>(AccelError::Driver { code: status }),
    {
        if status != crate::error::SUCCESS {
            Err(AccelError::Driver { code: status })
        } else {
            Ok(Module { handle })
        }
    }

    /// The native handle.
    pub fn get_ptr(&self) -> (r: u64)
        ensures
            r == self.handle(),
    {
        self.handle
    }

    /// The entry point `func` that the driver found in this module, where its
    /// lookup answered `status`.
    pub fn get_function<'m>(&'m self, status: u32, func: u64) -> (r: Result<Function<'m>, AccelError>)
        ensures
            status_result(status) is Ok <==> r is Ok,
            r is Ok ==> r->Ok_0.handle() == func && r->Ok_0.module() == self,
            r is Err ==> r == Err::<Function<'m>, AccelError>(AccelError::Driver { code: status }),
    {
        if status != crate::error::SUCCESS {
            Err(AccelError::Driver { code: status })
        } else {
            Ok(Function { func, module: self })
        }
    }
}

impl<'m> Function<'m> {
    /// The native handle.
    pub closed spec fn handle(&self) -> u64 {
        self.func
    }

    /// The module that this entry point belongs to.
    pub closed spec fn module(&self) -> &'m Module {
        self.module
    }

    /// The launch of this entry point over `grid` and `block`: on the default
    /// stream, with no dynamic shared memory. That the arguments agree with
    /// the kernel's signature is the caller's to ensure.
    pub fn launch(&mut self, grid: Grid, block: Block) -> (r: Launch)
        ensures
            *final(self) == *old(self),
            r == (Launch {
                func: old(self).handle(),
                grid: grid.0,
                block: block.0,
                shared_mem_bytes: 0,
                stream: 0,
            }),
    {
        Launch { func: self.func, grid: grid.0, block: block.0, shared_mem_bytes: 0, stream: 0 }
    }
}

impl Dim3 {
    /// One dimension: `x` by 1 by 1.
    pub fn x(x: u32) -> (r: Dim3)
        ensures
            r == (Dim3 { x, y: 1, z: 1 }),
    {
        Dim3 { x, y: 1, z: 1 }
    }

    /// Two dimensions: `x` by `y` by 1.
    pub fn xy(x: u32, y: u32) -> (r: Dim3)
        ensures
            r == (Dim3 { x, y, z: 1 }),
    {
        Dim3 { x, y, z: 1 }
    }

    /// Three dimensions.
    pub fn xyz(x: u32, y: u32, z: u32) -> (r: Dim3)
        ensures
            r == (Dim3 { x, y, z }),
    {
        Dim3 { x, y, z }
    }
}

} // verus!
