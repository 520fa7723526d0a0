//! Contexts, the per-thread stack of current contexts, and scoped guards.
//!
//! The driver keeps, for each thread, a stack of contexts; the top one is the
//! current context of that thread. A context handle is the driver's opaque
//! pointer, held here as the integer it is, with zero standing for null.
use vstd::prelude::*;
use vstd::std_specs::cmp::PartialEqSpec;

use crate::error::{check, status_result, AccelError};

verus! {

/// How popping the context stack can break the push/pop discipline.
#[derive(Debug, Clone, Copy, PartialEq, Eq, Structural)]
pub enum StackViolation {
    /// Nothing was current on this thread.
    NoCurrent,
    /// Another context than the expected one was on top.
    Mismatch { expected: u64, found: u64 },
}

/// The stack of contexts pushed on one thread, bottom first.
pub struct ContextStack {
    handles: Vec<u64>,
}

/// Whether `ptr` is the top of stack `s`, that is, the current context.
pub open spec fn is_current(s: Seq<u64>, ptr: u64) -> bool {
    s.len() > 0 && s.last() == ptr
}

impl View for ContextStack {
    type V = Seq<u64>;

    closed spec fn view(&self) -> Seq<u64> {
        self.handles@
    }
}

impl ContextStack {
    /// An empty stack: nothing is current.
    pub fn new() -> (r: ContextStack)
        ensures
            r@ == Seq::<u64>::empty(),
    {
        ContextStack { handles: Vec::new() }
    }

    /// The number of contexts pushed.
    pub fn depth(&self) -> (r: usize)
        ensures
            r == self@.len(),
    {
        self.handles.len()
    }

    /// The current context, if any.
    pub fn current(&self) -> (r: Option<u64>)
        ensures
            r == (if self@.len() == 0 { None } else { Some(self@.last()) }),
    {
        let n = self.handles.len();
        if n == 0 {
            None
        } else {
            Some(self.handles[n - 1])
        }
    }

    /// Whether `ptr` has been pushed and not yet popped.
    pub fn contains(&self, ptr: u64) -> (r: bool)
        ensures
            r == self@.contains(ptr),
    {
        let mut i: usize = 0;
        while i < self.handles.len()
            invariant
                i <= self.handles@.len(),
                forall|j: int| 0 <= j < i ==> self.handles@[j] != ptr,
            decreases self.handles@.len() - i,
        {
            if self.handles[i] == ptr {
                return true;
            }
            i = i + 1;
        }
        false
    }

    /// Makes `ptr` current on top of what was current.
    pub fn push(&mut self, ptr: u64)
        ensures
            final(self)@ == old(self)@.push(ptr),
    {
        self.handles.push(ptr);
    }

    /// Pops the current context, which must be `expected`. Popping with
    /// nothing current, or popping another context than the current one,
    /// breaks the stack discipline and is left out.
    pub fn pop(&mut self, expected: u64)
        requires
            is_current(old(self)@, expected),
        ensures
            final(self)@ == old(self)@.drop_last(),
    {
        self.handles.pop();
    }
}

/// Pushing a context makes it current, so that popping it is allowed, and
/// the pop leaves the stack as it was before the push. Once everything pushed
/// has been popped nothing is current, so a further pop is not allowed.
pub proof fn lemma_push_pop(s: Seq<u64>, ptr: u64)
    ensures
        is_current(s.push(ptr), ptr),
        s.push(ptr).drop_last() == s,
        !is_current(Seq::<u64>::empty(), ptr),
{
    assert(s.push(ptr).drop_last() =~= s);
}

/// Creating a context makes its fresh handle current and popping it at once
/// is allowed; afterwards the stack is as before, and the new handle is on it
/// nowhere: a new context starts out current on no thread.
pub proof fn lemma_create_nets_inactive(s: Seq<u64>, ptr: u64)
    requires
        !s.contains(ptr),
    ensures
        is_current(s.push(ptr), ptr),
        s.push(ptr).drop_last() == s,
        !s.push(ptr).drop_last().contains(ptr),
{
    assert(s.push(ptr).drop_last() =~= s);
}

/// Checks the handle that the driver popped against the one expected; zero is
/// the driver's null: nothing was current.
pub fn check_popped(popped: u64, expected: u64) -> (r: Result<(), StackViolation>)
    ensures
        popped == 0 ==> r == Err::<(), StackViolation>(StackViolation::NoCurrent),
        popped != 0 && popped == expected ==> r == Ok::<(), StackViolation>(()),
        popped != 0 && popped != expected ==> r == Err::<(), StackViolation>(StackViolation::Mismatch { expected, found: popped }),
{
    if popped == 0 {
        Err(StackViolation::NoCurrent)
    } else if popped == expected {
        Ok(())
    } else {
        Err(StackViolation::Mismatch { expected, found: popped })
    }
}

/// An owned context. At most one lives for each native handle, and the handle
/// is destroyed with it.
#[derive(Debug)]
pub struct Context {
    ptr: u64,
}

/// A borrowed context: the same handle, with no ownership. Nothing tracks
/// whether the owning context is still alive.
#[derive(Debug)]
pub struct ContextRef {
    ptr: u64,
}

impl Context {
    /// The native handle.
    pub closed spec fn handle(&self) -> u64 {
        self.ptr
    }

    /// Takes ownership of the context `ptr` that the driver just created on
    /// this thread. Creation makes the new context current; it is popped again
    /// at once, so that every context starts out current on no thread.
    pub fn create(ptr: u64, stack: &mut ContextStack) -> (r: Context)
        requires
            ptr != 0,
            !old(stack)@.contains(ptr),
        ensures
            r.handle() == ptr,
            final(stack)@ == old(stack)@,
            !final(stack)@.contains(ptr),
    {
        stack.push(ptr);
        stack.pop(ptr);
        assert(old(stack)@.push(ptr).drop_last() =~= old(stack)@);
        Context { ptr }
    }

    /// The native handle.
    pub fn get_ptr(&self) -> (r: u64)
        ensures
            r == self.handle(),
    {
        self.ptr
    }

    /// A borrowed reference to this context: it holds the same handle. It is
    /// not a Rust reference, and the owned context may be dropped while it is
    /// around; using it then is the caller's error.
    pub fn get_ref(&self) -> (r: ContextRef)
        ensures
            r.handle() == self.handle(),
    {
        ContextRef { ptr: self.ptr }
    }

    /// Makes this context current for the span of `status`, the outcome of the
    /// driver's wait for all work in it, and reports that outcome. The stack
    /// ends as it began, whatever the outcome.
    pub fn sync(&self, stack: &mut ContextStack, status: u32) -> (r: Result<(), AccelError>)
        ensures
            final(stack)@ == old(stack)@,
            r == status_result(status),
    {
        let guard = ContextGuard::guard_context(self, stack);
        let r = check(status);
        guard.release(stack);
        assert(old(stack)@.push(self.ptr).drop_last() =~= old(stack)@);
        r
    }
}

impl ContextRef {
    /// The native handle.
    pub closed spec fn handle(&self) -> u64 {
        self.ptr
    }

    /// The native handle.
    pub fn get_ptr(&self) -> (r: u64)
        ensures
            r == self.handle(),
    {
        self.ptr
    }

    /// As `Context::sync`, through the borrowed handle.
    pub fn sync(&self, stack: &mut ContextStack, status: u32) -> (r: Result<(), AccelError>)
        ensures
            final(stack)@ == old(stack)@,
            r == status_result(status),
    {
        let guard = ContextGuard::guard_ref(self, stack);
        let r = check(status);
        guard.release(stack);
        assert(old(stack)@.push(self.ptr).drop_last() =~= old(stack)@);
        r
    }
}

impl PartialEq for Context {
    fn eq(&self, other: &Context) -> (r: bool) {
        self.ptr == other.ptr
    }
}

impl vstd::std_specs::cmp::PartialEqSpecImpl for Context {
    open spec fn obeys_eq_spec() -> bool {
        true
    }

    open spec fn eq_spec(&self, other: &Context) -> bool {
        self.handle() == other.handle()
    }
}

impl PartialEq for ContextRef {
    fn eq(&self, other: &ContextRef) -> (r: bool) {
        self.ptr == other.ptr
    }
}

impl vstd::std_specs::cmp::PartialEqSpecImpl for ContextRef {
    open spec fn obeys_eq_spec() -> bool {
        true
    }

    open spec fn eq_spec(&self, other: &ContextRef) -> bool {
        self.handle() == other.handle()
    }
}

impl PartialEq<ContextRef> for Context {
    fn eq(&self, other: &ContextRef) -> (r: bool) {
        self.ptr == other.ptr
    }
}

impl vstd::std_specs::cmp::PartialEqSpecImpl<ContextRef> for Context {
    open spec fn obeys_eq_spec() -> bool {
        true
    }

    open spec fn eq_spec(&self, other: &ContextRef) -> bool {
        self.handle() == other.handle()
    }
}

impl PartialEq<Context> for ContextRef {
    fn eq(&self, other: &Context) -> (r: bool) {
        self.ptr == other.ptr
    }
}

impl vstd::std_specs::cmp::PartialEqSpecImpl<Context> for ContextRef {
    open spec fn obeys_eq_spec() -> bool {
        true
    }

    open spec fn eq_spec(&self, other: &Context) -> bool {
        self.handle() == other.handle()
    }
}

/// A reference taken from a context compares equal to it, both ways round,
/// by the identity of the native handle.
pub proof fn lemma_ref_equals_owner(ctx: Context, r: ContextRef)
    requires
        r.handle() == ctx.handle(),
    ensures
        ctx.eq_spec(&r),
        r.eq_spec(&ctx),
{
}

/// A scoped token: while it lives, its context has been pushed on this thread.
pub struct ContextGuard {
    ptr: u64,
}

impl ContextGuard {
    /// The handle that this guard pushed.
    pub closed spec fn handle(&self) -> u64 {
        self.ptr
    }

    /// Makes `ctx` current on this thread.
    pub fn guard_context(ctx: &Context, stack: &mut ContextStack) -> (r: ContextGuard)
        ensures
            r.handle() == ctx.handle(),
            final(stack)@ == old(stack)@.push(ctx.handle()),
    {
        stack.push(ctx.ptr);
        ContextGuard { ptr: ctx.ptr }
    }

    /// Makes the context that `ctx` refers to current on this thread. The
    /// owning context must still be alive.
    pub fn guard_ref(ctx: &ContextRef, stack: &mut ContextStack) -> (r: ContextGuard)
        ensures
            r.handle() == ctx.handle(),
            final(stack)@ == old(stack)@.push(ctx.handle()),
    {
        stack.push(ctx.ptr);
        ContextGuard { ptr: ctx.ptr }
    }

    /// The handle that this guard pushed.
    pub fn get_ptr(&self) -> (r: u64)
        ensures
            r == self.handle(),
    {
        self.ptr
    }

    /// Ends the guard: pops its context, which must still be current.
    pub fn release(self, stack: &mut ContextStack)
        requires
            is_current(old(stack)@, self.handle()),
        ensures
            final(stack)@ == old(stack)@.drop_last(),
    {
        stack.pop(self.ptr);
    }
}

/// An object tied to a context.
pub trait Contexted {
    /// The handle of the context that this object belongs to.
    spec fn owner(&self) -> u64;

    /// The context that this object belongs to.
    fn get_context(&self) -> (r: &Context)
        ensures
            r.handle() == self.owner(),
    ;

    /// Makes the owning context current until the guard is released.
    fn guard_context(&self, stack: &mut ContextStack) -> (r: ContextGuard)
        ensures
            r.handle() == self.owner(),
            final(stack)@ == old(stack)@.push(self.owner()),
    {
        let ctx = self.get_context();
        ContextGuard::guard_context(ctx, stack)
    }

    /// Waits for all work in the owning context, as `Context::sync`.
    fn sync_context(&self, stack: &mut ContextStack, status: u32) -> (r: Result<(), AccelError>)
        ensures
            final(stack)@ == old(stack)@,
            r == status_result(status),
    {
        let ctx = self.get_context();
        ctx.sync(stack, status)
    }
}

impl Contexted for Context {
    open spec fn owner(&self) -> u64 {
        self.handle()
    }

    fn get_context(&self) -> (r: &Context) {
        self
    }
}

} // verus!
