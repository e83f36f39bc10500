//! The native closure bridge: fixed-layout block objects, per-instance
//! descriptors, per-arity trampolines, and the one-shot promotion protocol.
//!
//! A `ConcreteBlock` is the stack-resident form: a `Block` (the ABI header
//! together with the captured environment) plus an owned, heap-allocated
//! `BlockDescriptor`. `copy` promotes it, exactly once, into an `Id`, the
//! owning handle over the heap-resident form. Invocation is always fully
//! typed: the arity-indexed `BlockArguments` implementations select, at
//! compile time, the trampoline that forwards a tuple of arguments to the
//! captured environment.

use vstd::prelude::*;

verus! {

/// The foreign-runtime class a block object claims in its header: the tag for
/// stack-resident block instances or the tag for heap-resident (promoted)
/// ones.
#[derive(Clone, Copy, PartialEq, Eq, Structural, Debug)]
pub enum BlockClass {
    ConcreteStackBlock,
    ConcreteMallocBlock,
}

/// The flag bit recording that the block carries copy and dispose helpers in
/// its descriptor. It is set on every block this module constructs, since a
/// descriptor is always attached.
pub const BLOCK_HAS_COPY_DISPOSE: u32 = 1u32 << 25;

/// Identifies one of the per-arity trampolines. The trampolines are ordinary
/// typed functions here; the header records which one was installed at
/// construction, and that choice is never reassigned.
#[derive(Clone, Copy, PartialEq, Eq, Structural, Debug)]
pub struct TrampolineId {
    pub arity: usize,
}

/// The trampoline installed for a given argument count.
pub open spec fn trampoline_for_arity(arity: nat) -> TrampolineId {
    TrampolineId { arity: arity as usize }
}

/// Distinct arities select distinct trampolines, so a block constructed for
/// one argument count can never be dispatched through another count's entry
/// point.
pub proof fn lemma_distinct_arity_trampolines(a: nat, b: nat)
    requires
        a != b,
        a <= usize::MAX,
        b <= usize::MAX,
    ensures
        trampoline_for_arity(a) != trampoline_for_arity(b),
{
}

/// The helper entry points a descriptor can reference: the copy helper run by
/// the foreign runtime after its raw byte copy, and the dispose helper run on
/// release.
#[derive(Clone, Copy, PartialEq, Eq, Structural, Debug)]
pub enum HelperFn {
    ContextCopy,
    ContextDispose,
}

/// The per-instance record the foreign runtime reads when it takes ownership
/// of or releases a block: a reserved word, the exact byte size of the owning
/// block instance, and the two helper entry points.
pub struct BlockDescriptor {
    pub reserved: u64,
    pub block_size: usize,
    pub copy_helper: HelperFn,
    pub dispose_helper: HelperFn,
}

impl BlockDescriptor {
    /// A descriptor for a block instance of type `B`: reserved word zero,
    /// size recorded as the exact byte size of `B`, and the default helpers
    /// installed.
    pub fn new<B>() -> (r: BlockDescriptor)
        ensures
            r.reserved == 0,
            r.block_size == vstd::layout::size_of::<B>(),
            r.copy_helper == HelperFn::ContextCopy,
            r.dispose_helper == HelperFn::ContextDispose,
    {
        BlockDescriptor {
            reserved: 0,
            block_size: core::mem::size_of::<B>(),
            copy_helper: HelperFn::ContextCopy,
            dispose_helper: HelperFn::ContextDispose,
        }
    }
}

/// The copy helper the descriptor references: it runs after the foreign
/// runtime's raw byte copy has already relocated the captured environment,
/// so there is nothing left for it to do.
pub fn block_context_copy<B>(dst: &mut B, src: &B)
    ensures
        *final(dst) == *old(dst),
{
}

/// The dispose helper the descriptor references: it takes the block instance
/// and destructs the captured environment in place; the enclosing heap
/// allocation is freed by the foreign runtime itself.
pub fn block_context_dispose<B>(block: B) {
}

/// The flag word installed at construction marks the presence of the copy
/// and dispose helpers: its dedicated bit is set, as it must be whenever a
/// descriptor is attached, and every constructed block owns one.
pub proof fn lemma_flags_mark_copy_dispose()
    ensures
        BLOCK_HAS_COPY_DISPOSE & (1u32 << 25) != 0,
{
    assert((1u32 << 25) & (1u32 << 25) != 0u32) by (bit_vector);
}

/// A block object: the ABI-fixed header (class tag, flags, reserved word,
/// and the invocation entry point chosen at construction) together with the
/// captured environment it is invoked on.
pub struct Block<A, R, F> {
    pub isa: BlockClass,
    pub flags: u32,
    pub reserved: u32,
    pub invoke: TrampolineId,
    pub environment: F,
    pub arguments: core::marker::PhantomData<(A, R)>,
}

/// Types that may be used as the argument tuple of a block taking arguments
/// of `A` and returning `R` from an environment of type `F`. One
/// implementation exists per supported arity; each knows the precondition and
/// postcondition of the environment for its own argument count and forwards a
/// call through the matching trampoline.
pub trait BlockArguments<R, F>: Sized {
    /// The number of arguments in the tuple.
    spec fn arity() -> nat;

    /// The environment's precondition on this argument tuple.
    spec fn may_call(f: F, args: Self) -> bool;

    /// The environment's input-output relation: `forwards(f, args, r)` holds
    /// exactly when `r` is a value the environment `f` itself can return when
    /// invoked directly with `args`.
    spec fn forwards(f: F, args: Self, r: R) -> bool;

    /// Calls the given block with `self` as the arguments.
    fn call_block(self, block: &Block<Self, R, F>) -> (r: R)
        requires
            block.wf_for_arity(Self::arity()),
            Self::may_call(block.environment, self),
        ensures
            Self::forwards(block.environment, self, r),
    ;
}

impl<A, R, F> Block<A, R, F> {
    /// A well-formed block header for the given argument count: the reserved
    /// word is zero, the flag for the attached copy/dispose helpers is set,
    /// and the installed invocation entry point is the trampoline of exactly
    /// that arity.
    pub open spec fn wf_for_arity(self, arity: nat) -> bool {
        &&& self.reserved == 0
        &&& self.flags == BLOCK_HAS_COPY_DISPOSE
        &&& self.invoke == trampoline_for_arity(arity)
    }
}

impl<A: BlockArguments<R, F>, R, F> Block<A, R, F> {
    /// A well-formed block header whose invocation entry point matches the
    /// arity of its own argument-tuple type.
    pub open spec fn wf(self) -> bool {
        self.wf_for_arity(A::arity())
    }

    /// Call self with the given arguments. The returned value is exactly a
    /// value the captured environment itself returns on those arguments.
    pub fn call(&self, args: A) -> (r: R)
        requires
            self.wf(),
            A::may_call(self.environment, args),
        ensures
            A::forwards(self.environment, args, r),
    {
        args.call_block(self)
    }
}

impl<R, F: Fn() -> R> BlockArguments<R, F> for () {
    open spec fn arity() -> nat {
        0
    }

    open spec fn may_call(f: F, args: Self) -> bool {
        call_requires(f, args)
    }

    open spec fn forwards(f: F, args: Self, r: R) -> bool {
        call_ensures(f, args, r)
    }

    fn call_block(self, block: &Block<Self, R, F>) -> (r: R) {
        concrete_block_invoke_args0(block)
    }
}

impl<A0, R, F: Fn(A0) -> R> BlockArguments<R, F> for (A0,) {
    open spec fn arity() -> nat {
        1
    }

    open spec fn may_call(f: F, args: Self) -> bool {
        call_requires(f, args)
    }

    open spec fn forwards(f: F, args: Self, r: R) -> bool {
        call_ensures(f, args, r)
    }

    fn call_block(self, block: &Block<Self, R, F>) -> (r: R) {
        concrete_block_invoke_args1(block, self.0)
    }
}

/// Types that may be wrapped into a `ConcreteBlock` taking arguments of `A`
/// and returning `R`: the closures of each supported arity. The
/// implementation for each arity installs that arity's trampoline.
pub trait IntoConcreteBlock<A, R>: Sized where A: BlockArguments<R, Self> {
    /// Wraps `self` as the captured environment of a new stack-resident
    /// block.
    fn into_concrete_block(self) -> (r: ConcreteBlock<A, R, Self>)
        ensures
            r.wf(),
            r.base.environment == self,
    ;
}

/// The stack-resident form of a block: the block object itself plus its
/// exclusively owned, heap-allocated descriptor, whose address therefore
/// stays stable when the block is moved.
pub struct ConcreteBlock<A, R, F> {
    pub base: Block<A, R, F>,
    pub descriptor: Box<BlockDescriptor>,
}

impl<A: BlockArguments<R, F>, R, F> ConcreteBlock<A, R, F> {
    /// A well-formed stack-resident block: a well-formed header carrying the
    /// stack-block class tag, and a descriptor recording exactly this
    /// instance type's byte size, with the default helpers installed.
    pub open spec fn wf(self) -> bool {
        &&& self.base.wf()
        &&& self.base.isa == BlockClass::ConcreteStackBlock
        &&& self.descriptor.reserved == 0
        &&& self.descriptor.block_size == vstd::layout::size_of::<ConcreteBlock<A, R, F>>()
        &&& self.descriptor.copy_helper == HelperFn::ContextCopy
        &&& self.descriptor.dispose_helper == HelperFn::ContextDispose
    }

    /// Constructs a `ConcreteBlock` with the given invoke entry point and
    /// captured environment: stack-block class tag, the copy/dispose flag
    /// set, reserved word zeroed, and a fresh descriptor sized to this exact
    /// instance type. The entry point is fixed here for the instance's
    /// lifetime.
    fn with_invoke(invoke: TrampolineId, closure: F) -> (r: Self)
        ensures
            r.base.isa == BlockClass::ConcreteStackBlock,
            r.base.flags == BLOCK_HAS_COPY_DISPOSE,
            r.base.reserved == 0,
            r.base.invoke == invoke,
            r.base.environment == closure,
            r.descriptor.reserved == 0,
            r.descriptor.block_size == vstd::layout::size_of::<ConcreteBlock<A, R, F>>(),
            r.descriptor.copy_helper == HelperFn::ContextCopy,
            r.descriptor.dispose_helper == HelperFn::ContextDispose,
    {
        ConcreteBlock {
            base: Block {
                isa: BlockClass::ConcreteStackBlock,
                flags: BLOCK_HAS_COPY_DISPOSE,
                reserved: 0,
                invoke,
                environment: closure,
                arguments: core::marker::PhantomData,
            },
            descriptor: Box::new(BlockDescriptor::new::<ConcreteBlock<A, R, F>>()),
        }
    }

    /// Call self with the given arguments, exactly as the promoted form
    /// would: the result is a value the captured environment itself returns
    /// on those arguments.
    pub fn call(&self, args: A) -> (r: R)
        requires
            self.wf(),
            A::may_call(self.base.environment, args),
        ensures
            A::forwards(self.base.environment, args, r),
    {
        self.base.call(args)
    }

    /// Promotes self to the heap, consuming the stack-resident instance: the
    /// one-shot ownership transfer. The foreign runtime's copy primitive
    /// relocates the instance byte for byte — so the captured environment,
    /// the chosen invoke entry point, and the descriptor (with the recorded
    /// instance size) carry over unchanged — and retags the copy with the
    /// heap-block class. The original binding is consumed by move, so it can
    /// never be read, called, or promoted again, and its destructor never
    /// runs for the transferred environment.
    pub fn copy(self) -> (r: Id<A, R, F>)
        requires
            self.wf(),
        ensures
            r.wf(),
            r.block.environment == self.base.environment,
            r.block.invoke == self.base.invoke,
            r.block.flags == self.base.flags,
            r.block.isa == BlockClass::ConcreteMallocBlock,
            r.descriptor == self.descriptor,
            r.descriptor.block_size == vstd::layout::size_of::<ConcreteBlock<A, R, F>>(),
            forall|args: A|
                #[trigger] A::may_call(r.block.environment, args) == A::may_call(
                    self.base.environment,
                    args,
                ),
            forall|args: A, v: R|
                #[trigger] A::forwards(r.block.environment, args, v) == A::forwards(
                    self.base.environment,
                    args,
                    v,
                ),
    {
        let ConcreteBlock { base, descriptor } = self;
        let Block { isa: _, flags, reserved, invoke, environment, arguments } = base;
        Id {
            block: Box::new(
                Block {
                    isa: BlockClass::ConcreteMallocBlock,
                    flags,
                    reserved,
                    invoke,
                    environment,
                    arguments,
                },
            ),
            descriptor,
        }
    }
}

impl<A: BlockArguments<R, F>, R, F: IntoConcreteBlock<A, R>> ConcreteBlock<A, R, F> {
    /// Constructs a `ConcreteBlock` with the given closure as its captured
    /// environment. When the block is called, it returns the value that
    /// results from calling the closure.
    pub fn new(closure: F) -> (r: Self)
        ensures
            r.wf(),
            r.base.environment == closure,
    {
        closure.into_concrete_block()
    }
}

impl<A: BlockArguments<R, F>, R, F: Clone> Clone for ConcreteBlock<A, R, F> {
    /// A fresh stack-resident block around a clone of the captured
    /// environment, with the same invoke entry point and its own fresh
    /// descriptor.
    fn clone(&self) -> (r: Self)
        ensures
            r.base.isa == BlockClass::ConcreteStackBlock,
            r.base.flags == BLOCK_HAS_COPY_DISPOSE,
            r.base.reserved == 0,
            r.base.invoke == self.base.invoke,
            r.descriptor.reserved == 0,
            r.descriptor.block_size == vstd::layout::size_of::<ConcreteBlock<A, R, F>>(),
            r.descriptor.copy_helper == HelperFn::ContextCopy,
            r.descriptor.dispose_helper == HelperFn::ContextDispose,
            self.wf() ==> r.wf(),
            vstd::pervasive::cloned::<F>(self.base.environment, r.base.environment),
    {
        ConcreteBlock::with_invoke(self.base.invoke, self.base.environment.clone())
    }
}

/// The owning handle over a promoted, heap-resident block: the only form in
/// which a block crosses the module boundary after promotion. The handle owns
/// the heap block; when the foreign runtime's reference count reaches zero,
/// release runs the descriptor's dispose helper, destructing the captured
/// environment in place.
pub struct Id<A, R, F> {
    pub block: Box<Block<A, R, F>>,
    pub descriptor: Box<BlockDescriptor>,
}

impl<A: BlockArguments<R, F>, R, F> Id<A, R, F> {
    /// A well-formed heap-resident block: a well-formed header now carrying
    /// the heap-block class tag, with the descriptor carried over from the
    /// stack instance it was copied from.
    pub open spec fn wf(self) -> bool {
        &&& self.block.wf()
        &&& self.block.isa == BlockClass::ConcreteMallocBlock
        &&& self.descriptor.reserved == 0
        &&& self.descriptor.block_size == vstd::layout::size_of::<ConcreteBlock<A, R, F>>()
        &&& self.descriptor.copy_helper == HelperFn::ContextCopy
        &&& self.descriptor.dispose_helper == HelperFn::ContextDispose
    }

    /// Call the promoted block with the given arguments: the result is a
    /// value the captured environment itself returns on those arguments,
    /// exactly as for the stack-resident form it was promoted from.
    pub fn call(&self, args: A) -> (r: R)
        requires
            self.wf(),
            A::may_call(self.block.environment, args),
        ensures
            A::forwards(self.block.environment, args, r),
    {
        self.block.call(args)
    }

    /// Releases the handle, as the foreign runtime does when its reference
    /// count reaches zero: the descriptor's dispose helper destructs the
    /// captured environment in place, and the enclosing heap storage is the
    /// runtime's own to free. The handle is consumed, so a released block is
    /// unreachable afterwards.
    pub fn release(self) {
        block_context_dispose(self.block);
    }
}

/// Promotion preserves invocation behavior: because `copy` hands the captured
/// environment over unchanged, a value is a possible result of invoking the
/// promoted handle exactly when it is a possible result of invoking the
/// pre-promotion stack instance with the same arguments.
pub proof fn lemma_promotion_preserves_behavior<A: BlockArguments<R, F>, R, F>(
    stack: ConcreteBlock<A, R, F>,
    heap: Id<A, R, F>,
    args: A,
    r: R,
)
    requires
        heap.block.environment == stack.base.environment,
    ensures
        A::forwards(heap.block.environment, args, r) == A::forwards(stack.base.environment, args, r),
        A::may_call(heap.block.environment, args) == A::may_call(stack.base.environment, args),
{
}

impl<R, X: Fn() -> R> IntoConcreteBlock<(), R> for X {
    fn into_concrete_block(self) -> (r: ConcreteBlock<(), R, X>) {
        ConcreteBlock::with_invoke(TrampolineId { arity: 0 }, self)
    }
}

impl<A0, R, X: Fn(A0) -> R> IntoConcreteBlock<(A0,), R> for X {
    fn into_concrete_block(self) -> (r: ConcreteBlock<(A0,), R, X>) {
        ConcreteBlock::with_invoke(TrampolineId { arity: 1 }, self)
    }
}

/// The arity-0 trampoline: recovers the captured environment from the block
/// and invokes it, ignoring the (empty) argument list.
fn concrete_block_invoke_args0<R, F: Fn() -> R>(block: &Block<(), R, F>) -> (r: R)
    requires
        call_requires(block.environment, ()),
    ensures
        call_ensures(block.environment, (), r),
{
    (block.environment)()
}

/// The arity-1 trampoline: recovers the captured environment from the block
/// and forwards its single argument.
fn concrete_block_invoke_args1<A0, R, F: Fn(A0) -> R>(block: &Block<(A0,), R, F>, a0: A0) -> (r: R)
    requires
        call_requires(block.environment, (a0,)),
    ensures
        call_ensures(block.environment, (a0,), r),
{
    (block.environment)(a0)
}


impl<A0, A1, R, F: Fn(A0, A1) -> R> BlockArguments<R, F> for (A0, A1) {
    open spec fn arity() -> nat {
        2
    }

    open spec fn may_call(f: F, args: Self) -> bool {
        call_requires(f, args)
    }

    open spec fn forwards(f: F, args: Self, r: R) -> bool {
        call_ensures(f, args, r)
    }

    fn call_block(self, block: &Block<Self, R, F>) -> (r: R) {
        let (a0, a1) = self;
        concrete_block_invoke_args2(block, a0, a1)
    }
}

impl<A0, A1, R, X: Fn(A0, A1) -> R> IntoConcreteBlock<(A0, A1), R> for X {
    fn into_concrete_block(self) -> (r: ConcreteBlock<(A0, A1), R, X>) {
        ConcreteBlock::with_invoke(TrampolineId { arity: 2 }, self)
    }
}

/// The arity-2 trampoline: recovers the captured environment from the block
/// and forwards its 2 arguments in declaration order.
fn concrete_block_invoke_args2<A0, A1, R, F: Fn(A0, A1) -> R>(
    block: &Block<(A0, A1), R, F>,
    a0: A0, a1: A1,
) -> (r: R)
    requires
        call_requires(block.environment, (a0, a1)),
    ensures
        call_ensures(block.environment, (a0, a1), r),
{
    (block.environment)(a0, a1)
}

impl<A0, A1, A2, R, F: Fn(A0, A1, A2) -> R> BlockArguments<R, F> for (A0, A1, A2) {
    open spec fn arity() -> nat {
        3
    }

    open spec fn may_call(f: F, args: Self) -> bool {
        call_requires(f, args)
    }

    open spec fn forwards(f: F, args: Self, r: R) -> bool {
        call_ensures(f, args, r)
    }

    fn call_block(self, block: &Block<Self, R, F>) -> (r: R) {
        let (a0, a1, a2) = self;
        concrete_block_invoke_args3(block, a0, a1, a2)
    }
}

impl<A0, A1, A2, R, X: Fn(A0, A1, A2) -> R> IntoConcreteBlock<(A0, A1, A2), R> for X {
    fn into_concrete_block(self) -> (r: ConcreteBlock<(A0, A1, A2), R, X>) {
        ConcreteBlock::with_invoke(TrampolineId { arity: 3 }, self)
    }
}

/// The arity-3 trampoline: recovers the captured environment from the block
/// and forwards its 3 arguments in declaration order.
fn concrete_block_invoke_args3<A0, A1, A2, R, F: Fn(A0, A1, A2) -> R>(
    block: &Block<(A0, A1, A2), R, F>,
    a0: A0, a1: A1, a2: A2,
) -> (r: R)
    requires
        call_requires(block.environment, (a0, a1, a2)),
    ensures
        call_ensures(block.environment, (a0, a1, a2), r),
{
    (block.environment)(a0, a1, a2)
}

impl<A0, A1, A2, A3, R, F: Fn(A0, A1, A2, A3) -> R> BlockArguments<R, F> for (A0, A1, A2, A3) {
    open spec fn arity() -> nat {
        4
    }

    open spec fn may_call(f: F, args: Self) -> bool {
        call_requires(f, args)
    }

    open spec fn forwards(f: F, args: Self, r: R) -> bool {
        call_ensures(f, args, r)
    }

    fn call_block(self, block: &Block<Self, R, F>) -> (r: R) {
        let (a0, a1, a2, a3) = self;
        concrete_block_invoke_args4(block, a0, a1, a2, a3)
    }
}

impl<A0, A1, A2, A3, R, X: Fn(A0, A1, A2, A3) -> R> IntoConcreteBlock<(A0, A1, A2, A3), R> for X {
    fn into_concrete_block(self) -> (r: ConcreteBlock<(A0, A1, A2, A3), R, X>) {
        ConcreteBlock::with_invoke(TrampolineId { arity: 4 }, self)
    }
}

/// The arity-4 trampoline: recovers the captured environment from the block
/// and forwards its 4 arguments in declaration order.
fn concrete_block_invoke_args4<A0, A1, A2, A3, R, F: Fn(A0, A1, A2, A3) -> R>(
    block: &Block<(A0, A1, A2, A3), R, F>,
    a0: A0, a1: A1, a2: A2, a3: A3,
) -> (r: R)
    requires
        call_requires(block.environment, (a0, a1, a2, a3)),
    ensures
        call_ensures(block.environment, (a0, a1, a2, a3), r),
{
    (block.environment)(a0, a1, a2, a3)
}

impl<A0, A1, A2, A3, A4, R, F: Fn(A0, A1, A2, A3, A4) -> R> BlockArguments<R, F> for (A0, A1, A2, A3, A4) {
    open spec fn arity() -> nat {
        5
    }

    open spec fn may_call(f: F, args: Self) -> bool {
        call_requires(f, args)
    }

    open spec fn forwards(f: F, args: Self, r: R) -> bool {
        call_ensures(f, args, r)
    }

    fn call_block(self, block: &Block<Self, R, F>) -> (r: R) {
        let (a0, a1, a2, a3, a4) = self;
        concrete_block_invoke_args5(block, a0, a1, a2, a3, a4)
    }
}

impl<A0, A1, A2, A3, A4, R, X: Fn(A0, A1, A2, A3, A4) -> R> IntoConcreteBlock<(A0, A1, A2, A3, A4), R> for X {
    fn into_concrete_block(self) -> (r: ConcreteBlock<(A0, A1, A2, A3, A4), R, X>) {
        ConcreteBlock::with_invoke(TrampolineId { arity: 5 }, self)
    }
}

/// The arity-5 trampoline: recovers the captured environment from the block
/// and forwards its 5 arguments in declaration order.
fn concrete_block_invoke_args5<A0, A1, A2, A3, A4, R, F: Fn(A0, A1, A2, A3, A4) -> R>(
    block: &Block<(A0, A1, A2, A3, A4), R, F>,
    a0: A0, a1: A1, a2: A2, a3: A3, a4: A4,
) -> (r: R)
    requires
        call_requires(block.environment, (a0, a1, a2, a3, a4)),
    ensures
        call_ensures(block.environment, (a0, a1, a2, a3, a4), r),
{
    (block.environment)(a0, a1, a2, a3, a4)
}

impl<A0, A1, A2, A3, A4, A5, R, F: Fn(A0, A1, A2, A3, A4, A5) -> R> BlockArguments<R, F> for (A0, A1, A2, A3, A4, A5) {
    open spec fn arity() -> nat {
        6
    }

    open spec fn may_call(f: F, args: Self) -> bool {
        call_requires(f, args)
    }

    open spec fn forwards(f: F, args: Self, r: R) -> bool {
        call_ensures(f, args, r)
    }

    fn call_block(self, block: &Block<Self, R, F>) -> (r: R) {
        let (a0, a1, a2, a3, a4, a5) = self;
        concrete_block_invoke_args6(block, a0, a1, a2, a3, a4, a5)
    }
}

impl<A0, A1, A2, A3, A4, A5, R, X: Fn(A0, A1, A2, A3, A4, A5) -> R> IntoConcreteBlock<(A0, A1, A2, A3, A4, A5), R> for X {
    fn into_concrete_block(self) -> (r: ConcreteBlock<(A0, A1, A2, A3, A4, A5), R, X>) {
        ConcreteBlock::with_invoke(TrampolineId { arity: 6 }, self)
    }
}

/// The arity-6 trampoline: recovers the captured environment from the block
/// and forwards its 6 arguments in declaration order.
fn concrete_block_invoke_args6<A0, A1, A2, A3, A4, A5, R, F: Fn(A0, A1, A2, A3, A4, A5) -> R>(
    block: &Block<(A0, A1, A2, A3, A4, A5), R, F>,
    a0: A0, a1: A1, a2: A2, a3: A3, a4: A4, a5: A5,
) -> (r: R)
    requires
        call_requires(block.environment, (a0, a1, a2, a3, a4, a5)),
    ensures
        call_ensures(block.environment, (a0, a1, a2, a3, a4, a5), r),
{
    (block.environment)(a0, a1, a2, a3, a4, a5)
}

impl<A0, A1, A2, A3, A4, A5, A6, R, F: Fn(A0, A1, A2, A3, A4, A5, A6) -> R> BlockArguments<R, F> for (A0, A1, A2, A3, A4, A5, A6) {
    open spec fn arity() -> nat {
        7
    }

    open spec fn may_call(f: F, args: Self) -> bool {
        call_requires(f, args)
    }

    open spec fn forwards(f: F, args: Self, r: R) -> bool {
        call_ensures(f, args, r)
    }

    fn call_block(self, block: &Block<Self, R, F>) -> (r: R) {
        let (a0, a1, a2, a3, a4, a5, a6) = self;
        concrete_block_invoke_args7(block, a0, a1, a2, a3, a4, a5, a6)
    }
}

impl<A0, A1, A2, A3, A4, A5, A6, R, X: Fn(A0, A1, A2, A3, A4, A5, A6) -> R> IntoConcreteBlock<(A0, A1, A2, A3, A4, A5, A6), R> for X {
    fn into_concrete_block(self) -> (r: ConcreteBlock<(A0, A1, A2, A3, A4, A5, A6), R, X>) {
        ConcreteBlock::with_invoke(TrampolineId { arity: 7 }, self)
    }
}

/// The arity-7 trampoline: recovers the captured environment from the block
/// and forwards its 7 arguments in declaration order.
fn concrete_block_invoke_args7<A0, A1, A2, A3, A4, A5, A6, R, F: Fn(A0, A1, A2, A3, A4, A5, A6) -> R>(
    block: &Block<(A0, A1, A2, A3, A4, A5, A6), R, F>,
    a0: A0, a1: A1, a2: A2, a3: A3, a4: A4, a5: A5, a6: A6,
) -> (r: R)
    requires
        call_requires(block.environment, (a0, a1, a2, a3, a4, a5, a6)),
    ensures
        call_ensures(block.environment, (a0, a1, a2, a3, a4, a5, a6), r),
{
    (block.environment)(a0, a1, a2, a3, a4, a5, a6)
}

impl<A0, A1, A2, A3, A4, A5, A6, A7, R, F: Fn(A0, A1, A2, A3, A4, A5, A6, A7) -> R> BlockArguments<R, F> for (A0, A1, A2, A3, A4, A5, A6, A7) {
    open spec fn arity() -> nat {
        8
    }

    open spec fn may_call(f: F, args: Self) -> bool {
        call_requires(f, args)
    }

    open spec fn forwards(f: F, args: Self, r: R) -> bool {
        call_ensures(f, args, r)
    }

    fn call_block(self, block: &Block<Self, R, F>) -> (r: R) {
        let (a0, a1, a2, a3, a4, a5, a6, a7) = self;
        concrete_block_invoke_args8(block, a0, a1, a2, a3, a4, a5, a6, a7)
    }
}

impl<A0, A1, A2, A3, A4, A5, A6, A7, R, X: Fn(A0, A1, A2, A3, A4, A5, A6, A7) -> R> IntoConcreteBlock<(A0, A1, A2, A3, A4, A5, A6, A7), R> for X {
    fn into_concrete_block(self) -> (r: ConcreteBlock<(A0, A1, A2, A3, A4, A5, A6, A7), R, X>) {
        ConcreteBlock::with_invoke(TrampolineId { arity: 8 }, self)
    }
}

/// The arity-8 trampoline: recovers the captured environment from the block
/// and forwards its 8 arguments in declaration order.
fn concrete_block_invoke_args8<A0, A1, A2, A3, A4, A5, A6, A7, R, F: Fn(A0, A1, A2, A3, A4, A5, A6, A7) -> R>(
    block: &Block<(A0, A1, A2, A3, A4, A5, A6, A7), R, F>,
    a0: A0, a1: A1, a2: A2, a3: A3, a4: A4, a5: A5, a6: A6, a7: A7,
) -> (r: R)
    requires
        call_requires(block.environment, (a0, a1, a2, a3, a4, a5, a6, a7)),
    ensures
        call_ensures(block.environment, (a0, a1, a2, a3, a4, a5, a6, a7), r),
{
    (block.environment)(a0, a1, a2, a3, a4, a5, a6, a7)
}

impl<A0, A1, A2, A3, A4, A5, A6, A7, A8, R, F: Fn(A0, A1, A2, A3, A4, A5, A6, A7, A8) -> R> BlockArguments<R, F> for (A0, A1, A2, A3, A4, A5, A6, A7, A8) {
    open spec fn arity() -> nat {
        9
    }

    open spec fn may_call(f: F, args: Self) -> bool {
        call_requires(f, args)
    }

    open spec fn forwards(f: F, args: Self, r: R) -> bool {
        call_ensures(f, args, r)
    }

    fn call_block(self, block: &Block<Self, R, F>) -> (r: R) {
        let (a0, a1, a2, a3, a4, a5, a6, a7, a8) = self;
        concrete_block_invoke_args9(block, a0, a1, a2, a3, a4, a5, a6, a7, a8)
    }
}

impl<A0, A1, A2, A3, A4, A5, A6, A7, A8, R, X: Fn(A0, A1, A2, A3, A4, A5, A6, A7, A8) -> R> IntoConcreteBlock<(A0, A1, A2, A3, A4, A5, A6, A7, A8), R> for X {
    fn into_concrete_block(self) -> (r: ConcreteBlock<(A0, A1, A2, A3, A4, A5, A6, A7, A8), R, X>) {
        ConcreteBlock::with_invoke(TrampolineId { arity: 9 }, self)
    }
}

/// The arity-9 trampoline: recovers the captured environment from the block
/// and forwards its 9 arguments in declaration order.
fn concrete_block_invoke_args9<A0, A1, A2, A3, A4, A5, A6, A7, A8, R, F: Fn(A0, A1, A2, A3, A4, A5, A6, A7, A8) -> R>(
    block: &Block<(A0, A1, A2, A3, A4, A5, A6, A7, A8), R, F>,
    a0: A0, a1: A1, a2: A2, a3: A3, a4: A4, a5: A5, a6: A6, a7: A7, a8: A8,
) -> (r: R)
    requires
        call_requires(block.environment, (a0, a1, a2, a3, a4, a5, a6, a7, a8)),
    ensures
        call_ensures(block.environment, (a0, a1, a2, a3, a4, a5, a6, a7, a8), r),
{
    (block.environment)(a0, a1, a2, a3, a4, a5, a6, a7, a8)
}

impl<A0, A1, A2, A3, A4, A5, A6, A7, A8, A9, R, F: Fn(A0, A1, A2, A3, A4, A5, A6, A7, A8, A9) -> R> BlockArguments<R, F> for (A0, A1, A2, A3, A4, A5, A6, A7, A8, A9) {
    open spec fn arity() -> nat {
        10
    }

    open spec fn may_call(f: F, args: Self) -> bool {
        call_requires(f, args)
    }

    open spec fn forwards(f: F, args: Self, r: R) -> bool {
        call_ensures(f, args, r)
    }

    fn call_block(self, block: &Block<Self, R, F>) -> (r: R) {
        let (a0, a1, a2, a3, a4, a5, a6, a7, a8, a9) = self;
        concrete_block_invoke_args10(block, a0, a1, a2, a3, a4, a5, a6, a7, a8, a9)
    }
}

impl<A0, A1, A2, A3, A4, A5, A6, A7, A8, A9, R, X: Fn(A0, A1, A2, A3, A4, A5, A6, A7, A8, A9) -> R> IntoConcreteBlock<(A0, A1, A2, A3, A4, A5, A6, A7, A8, A9), R> for X {
    fn into_concrete_block(self) -> (r: ConcreteBlock<(A0, A1, A2, A3, A4, A5, A6, A7, A8, A9), R, X>) {
        ConcreteBlock::with_invoke(TrampolineId { arity: 10 }, self)
    }
}

/// The arity-10 trampoline: recovers the captured environment from the block
/// and forwards its 10 arguments in declaration order.
fn concrete_block_invoke_args10<A0, A1, A2, A3, A4, A5, A6, A7, A8, A9, R, F: Fn(A0, A1, A2, A3, A4, A5, A6, A7, A8, A9) -> R>(
    block: &Block<(A0, A1, A2, A3, A4, A5, A6, A7, A8, A9), R, F>,
    a0: A0, a1: A1, a2: A2, a3: A3, a4: A4, a5: A5, a6: A6, a7: A7, a8: A8, a9: A9,
) -> (r: R)
    requires
        call_requires(block.environment, (a0, a1, a2, a3, a4, a5, a6, a7, a8, a9)),
    ensures
        call_ensures(block.environment, (a0, a1, a2, a3, a4, a5, a6, a7, a8, a9), r),
{
    (block.environment)(a0, a1, a2, a3, a4, a5, a6, a7, a8, a9)
}

impl<A0, A1, A2, A3, A4, A5, A6, A7, A8, A9, A10, R, F: Fn(A0, A1, A2, A3, A4, A5, A6, A7, A8, A9, A10) -> R> BlockArguments<R, F> for (A0, A1, A2, A3, A4, A5, A6, A7, A8, A9, A10) {
    open spec fn arity() -> nat {
        11
    }

    open spec fn may_call(f: F, args: Self) -> bool {
        call_requires(f, args)
    }

    open spec fn forwards(f: F, args: Self, r: R) -> bool {
        call_ensures(f, args, r)
    }

    fn call_block(self, block: &Block<Self, R, F>) -> (r: R) {
        let (a0, a1, a2, a3, a4, a5, a6, a7, a8, a9, a10) = self;
        concrete_block_invoke_args11(block, a0, a1, a2, a3, a4, a5, a6, a7, a8, a9, a10)
    }
}

impl<A0, A1, A2, A3, A4, A5, A6, A7, A8, A9, A10, R, X: Fn(A0, A1, A2, A3, A4, A5, A6, A7, A8, A9, A10) -> R> IntoConcreteBlock<(A0, A1, A2, A3, A4, A5, A6, A7, A8, A9, A10), R> for X {
    fn into_concrete_block(self) -> (r: ConcreteBlock<(A0, A1, A2, A3, A4, A5, A6, A7, A8, A9, A10), R, X>) {
        ConcreteBlock::with_invoke(TrampolineId { arity: 11 }, self)
    }
}

/// The arity-11 trampoline: recovers the captured environment from the block
/// and forwards its 11 arguments in declaration order.
fn concrete_block_invoke_args11<A0, A1, A2, A3, A4, A5, A6, A7, A8, A9, A10, R, F: Fn(A0, A1, A2, A3, A4, A5, A6, A7, A8, A9, A10) -> R>(
    block: &Block<(A0, A1, A2, A3, A4, A5, A6, A7, A8, A9, A10), R, F>,
    a0: A0, a1: A1, a2: A2, a3: A3, a4: A4, a5: A5, a6: A6, a7: A7, a8: A8, a9: A9, a10: A10,
) -> (r: R)
    requires
        call_requires(block.environment, (a0, a1, a2, a3, a4, a5, a6, a7, a8, a9, a10)),
    ensures
        call_ensures(block.environment, (a0, a1, a2, a3, a4, a5, a6, a7, a8, a9, a10), r),
{
    (block.environment)(a0, a1, a2, a3, a4, a5, a6, a7, a8, a9, a10)
}

impl<A0, A1, A2, A3, A4, A5, A6, A7, A8, A9, A10, A11, R, F: Fn(A0, A1, A2, A3, A4, A5, A6, A7, A8, A9, A10, A11) -> R> BlockArguments<R, F> for (A0, A1, A2, A3, A4, A5, A6, A7, A8, A9, A10, A11) {
    open spec fn arity() -> nat {
        12
    }

    open spec fn may_call(f: F, args: Self) -> bool {
        call_requires(f, args)
    }

    open spec fn forwards(f: F, args: Self, r: R) -> bool {
        call_ensures(f, args, r)
    }

    fn call_block(self, block: &Block<Self, R, F>) -> (r: R) {
        let (a0, a1, a2, a3, a4, a5, a6, a7, a8, a9, a10, a11) = self;
        concrete_block_invoke_args12(block, a0, a1, a2, a3, a4, a5, a6, a7, a8, a9, a10, a11)
    }
}

impl<A0, A1, A2, A3, A4, A5, A6, A7, A8, A9, A10, A11, R, X: Fn(A0, A1, A2, A3, A4, A5, A6, A7, A8, A9, A10, A11) -> R> IntoConcreteBlock<(A0, A1, A2, A3, A4, A5, A6, A7, A8, A9, A10, A11), R> for X {
    fn into_concrete_block(self) -> (r: ConcreteBlock<(A0, A1, A2, A3, A4, A5, A6, A7, A8, A9, A10, A11), R, X>) {
        ConcreteBlock::with_invoke(TrampolineId { arity: 12 }, self)
    }
}

/// The arity-12 trampoline: recovers the captured environment from the block
/// and forwards its 12 arguments in declaration order.
fn concrete_block_invoke_args12<A0, A1, A2, A3, A4, A5, A6, A7, A8, A9, A10, A11, R, F: Fn(A0, A1, A2, A3, A4, A5, A6, A7, A8, A9, A10, A11) -> R>(
    block: &Block<(A0, A1, A2, A3, A4, A5, A6, A7, A8, A9, A10, A11), R, F>,
    a0: A0, a1: A1, a2: A2, a3: A3, a4: A4, a5: A5, a6: A6, a7: A7, a8: A8, a9: A9, a10: A10, a11: A11,
) -> (r: R)
    requires
        call_requires(block.environment, (a0, a1, a2, a3, a4, a5, a6, a7, a8, a9, a10, a11)),
    ensures
        call_ensures(block.environment, (a0, a1, a2, a3, a4, a5, a6, a7, a8, a9, a10, a11), r),
{
    (block.environment)(a0, a1, a2, a3, a4, a5, a6, a7, a8, a9, a10, a11)
}




/// Invoking a block whose argument tuple has 0 entries is governed by
/// exactly the captured environment's own contract: the call is admissible
/// precisely when the environment's precondition admits the arguments, and a
/// result is possible precisely when the environment itself can return it.
pub proof fn lemma_call_forwards_args0<R, F: Fn() -> R>(f: F, args: (), r: R)
    ensures
        <() as BlockArguments<R, F>>::may_call(f, args) == call_requires(f, args),
        <() as BlockArguments<R, F>>::forwards(f, args, r) == call_ensures(f, args, r),
{
}

/// Invoking a block whose argument tuple has 1 entries is governed by
/// exactly the captured environment's own contract: the call is admissible
/// precisely when the environment's precondition admits the arguments, and a
/// result is possible precisely when the environment itself can return it.
pub proof fn lemma_call_forwards_args1<A0, R, F: Fn(A0) -> R>(f: F, args: (A0,), r: R)
    ensures
        <(A0,) as BlockArguments<R, F>>::may_call(f, args) == call_requires(f, args),
        <(A0,) as BlockArguments<R, F>>::forwards(f, args, r) == call_ensures(f, args, r),
{
}

/// Invoking a block whose argument tuple has 2 entries is governed by
/// exactly the captured environment's own contract: the call is admissible
/// precisely when the environment's precondition admits the arguments, and a
/// result is possible precisely when the environment itself can return it.
pub proof fn lemma_call_forwards_args2<A0, A1, R, F: Fn(A0, A1) -> R>(f: F, args: (A0, A1), r: R)
    ensures
        <(A0, A1) as BlockArguments<R, F>>::may_call(f, args) == call_requires(f, args),
        <(A0, A1) as BlockArguments<R, F>>::forwards(f, args, r) == call_ensures(f, args, r),
{
}

/// Invoking a block whose argument tuple has 3 entries is governed by
/// exactly the captured environment's own contract: the call is admissible
/// precisely when the environment's precondition admits the arguments, and a
/// result is possible precisely when the environment itself can return it.
pub proof fn lemma_call_forwards_args3<A0, A1, A2, R, F: Fn(A0, A1, A2) -> R>(f: F, args: (A0, A1, A2), r: R)
    ensures
        <(A0, A1, A2) as BlockArguments<R, F>>::may_call(f, args) == call_requires(f, args),
        <(A0, A1, A2) as BlockArguments<R, F>>::forwards(f, args, r) == call_ensures(f, args, r),
{
}

/// Invoking a block whose argument tuple has 4 entries is governed by
/// exactly the captured environment's own contract: the call is admissible
/// precisely when the environment's precondition admits the arguments, and a
/// result is possible precisely when the environment itself can return it.
pub proof fn lemma_call_forwards_args4<A0, A1, A2, A3, R, F: Fn(A0, A1, A2, A3) -> R>(f: F, args: (A0, A1, A2, A3), r: R)
    ensures
        <(A0, A1, A2, A3) as BlockArguments<R, F>>::may_call(f, args) == call_requires(f, args),
        <(A0, A1, A2, A3) as BlockArguments<R, F>>::forwards(f, args, r) == call_ensures(f, args, r),
{
}

/// Invoking a block whose argument tuple has 5 entries is governed by
/// exactly the captured environment's own contract: the call is admissible
/// precisely when the environment's precondition admits the arguments, and a
/// result is possible precisely when the environment itself can return it.
pub proof fn lemma_call_forwards_args5<A0, A1, A2, A3, A4, R, F: Fn(A0, A1, A2, A3, A4) -> R>(f: F, args: (A0, A1, A2, A3, A4), r: R)
    ensures
        <(A0, A1, A2, A3, A4) as BlockArguments<R, F>>::may_call(f, args) == call_requires(f, args),
        <(A0, A1, A2, A3, A4) as BlockArguments<R, F>>::forwards(f, args, r) == call_ensures(f, args, r),
{
}

/// Invoking a block whose argument tuple has 6 entries is governed by
/// exactly the captured environment's own contract: the call is admissible
/// precisely when the environment's precondition admits the arguments, and a
/// result is possible precisely when the environment itself can return it.
pub proof fn lemma_call_forwards_args6<A0, A1, A2, A3, A4, A5, R, F: Fn(A0, A1, A2, A3, A4, A5) -> R>(f: F, args: (A0, A1, A2, A3, A4, A5), r: R)
    ensures
        <(A0, A1, A2, A3, A4, A5) as BlockArguments<R, F>>::may_call(f, args) == call_requires(f, args),
        <(A0, A1, A2, A3, A4, A5) as BlockArguments<R, F>>::forwards(f, args, r) == call_ensures(f, args, r),
{
}

/// Invoking a block whose argument tuple has 7 entries is governed by
/// exactly the captured environment's own contract: the call is admissible
/// precisely when the environment's precondition admits the arguments, and a
/// result is possible precisely when the environment itself can return it.
pub proof fn lemma_call_forwards_args7<A0, A1, A2, A3, A4, A5, A6, R, F: Fn(A0, A1, A2, A3, A4, A5, A6) -> R>(f: F, args: (A0, A1, A2, A3, A4, A5, A6), r: R)
    ensures
        <(A0, A1, A2, A3, A4, A5, A6) as BlockArguments<R, F>>::may_call(f, args) == call_requires(f, args),
        <(A0, A1, A2, A3, A4, A5, A6) as BlockArguments<R, F>>::forwards(f, args, r) == call_ensures(f, args, r),
{
}

/// Invoking a block whose argument tuple has 8 entries is governed by
/// exactly the captured environment's own contract: the call is admissible
/// precisely when the environment's precondition admits the arguments, and a
/// result is possible precisely when the environment itself can return it.
pub proof fn lemma_call_forwards_args8<A0, A1, A2, A3, A4, A5, A6, A7, R, F: Fn(A0, A1, A2, A3, A4, A5, A6, A7) -> R>(f: F, args: (A0, A1, A2, A3, A4, A5, A6, A7), r: R)
    ensures
        <(A0, A1, A2, A3, A4, A5, A6, A7) as BlockArguments<R, F>>::may_call(f, args) == call_requires(f, args),
        <(A0, A1, A2, A3, A4, A5, A6, A7) as BlockArguments<R, F>>::forwards(f, args, r) == call_ensures(f, args, r),
{
}

/// Invoking a block whose argument tuple has 9 entries is governed by
/// exactly the captured environment's own contract: the call is admissible
/// precisely when the environment's precondition admits the arguments, and a
/// result is possible precisely when the environment itself can return it.
pub proof fn lemma_call_forwards_args9<A0, A1, A2, A3, A4, A5, A6, A7, A8, R, F: Fn(A0, A1, A2, A3, A4, A5, A6, A7, A8) -> R>(f: F, args: (A0, A1, A2, A3, A4, A5, A6, A7, A8), r: R)
    ensures
        <(A0, A1, A2, A3, A4, A5, A6, A7, A8) as BlockArguments<R, F>>::may_call(f, args) == call_requires(f, args),
        <(A0, A1, A2, A3, A4, A5, A6, A7, A8) as BlockArguments<R, F>>::forwards(f, args, r) == call_ensures(f, args, r),
{
}

/// Invoking a block whose argument tuple has 10 entries is governed by
/// exactly the captured environment's own contract: the call is admissible
/// precisely when the environment's precondition admits the arguments, and a
/// result is possible precisely when the environment itself can return it.
pub proof fn lemma_call_forwards_args10<A0, A1, A2, A3, A4, A5, A6, A7, A8, A9, R, F: Fn(A0, A1, A2, A3, A4, A5, A6, A7, A8, A9) -> R>(f: F, args: (A0, A1, A2, A3, A4, A5, A6, A7, A8, A9), r: R)
    ensures
        <(A0, A1, A2, A3, A4, A5, A6, A7, A8, A9) as BlockArguments<R, F>>::may_call(f, args) == call_requires(f, args),
        <(A0, A1, A2, A3, A4, A5, A6, A7, A8, A9) as BlockArguments<R, F>>::forwards(f, args, r) == call_ensures(f, args, r),
{
}

/// Invoking a block whose argument tuple has 11 entries is governed by
/// exactly the captured environment's own contract: the call is admissible
/// precisely when the environment's precondition admits the arguments, and a
/// result is possible precisely when the environment itself can return it.
pub proof fn lemma_call_forwards_args11<A0, A1, A2, A3, A4, A5, A6, A7, A8, A9, A10, R, F: Fn(A0, A1, A2, A3, A4, A5, A6, A7, A8, A9, A10) -> R>(f: F, args: (A0, A1, A2, A3, A4, A5, A6, A7, A8, A9, A10), r: R)
    ensures
        <(A0, A1, A2, A3, A4, A5, A6, A7, A8, A9, A10) as BlockArguments<R, F>>::may_call(f, args) == call_requires(f, args),
        <(A0, A1, A2, A3, A4, A5, A6, A7, A8, A9, A10) as BlockArguments<R, F>>::forwards(f, args, r) == call_ensures(f, args, r),
{
}

/// Invoking a block whose argument tuple has 12 entries is governed by
/// exactly the captured environment's own contract: the call is admissible
/// precisely when the environment's precondition admits the arguments, and a
/// result is possible precisely when the environment itself can return it.
pub proof fn lemma_call_forwards_args12<A0, A1, A2, A3, A4, A5, A6, A7, A8, A9, A10, A11, R, F: Fn(A0, A1, A2, A3, A4, A5, A6, A7, A8, A9, A10, A11) -> R>(f: F, args: (A0, A1, A2, A3, A4, A5, A6, A7, A8, A9, A10, A11), r: R)
    ensures
        <(A0, A1, A2, A3, A4, A5, A6, A7, A8, A9, A10, A11) as BlockArguments<R, F>>::may_call(f, args) == call_requires(f, args),
        <(A0, A1, A2, A3, A4, A5, A6, A7, A8, A9, A10, A11) as BlockArguments<R, F>>::forwards(f, args, r) == call_ensures(f, args, r),
{
}

} // verus!
