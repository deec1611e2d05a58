//! Resource handles, the allocator that issues them, and the metadata that a
//! context records for each live resource.

use vstd::prelude::*;

verus! {

/// An opaque handle to a render resource.
///
/// Handles compare and hash by identity only. The sole way to obtain one is
/// from a [`HandleAllocator`]. One allocator never issues the same handle
/// twice; handles of different allocators may coincide, so a process that
/// wants its handles unique throughout draws them all from one allocator.
#[derive(Clone, Copy, Debug, PartialEq, Eq, Structural, PartialOrd, Ord, Hash)]
pub struct RenderResource {
    id: u64,
}

impl RenderResource {
    /// The counter never reaches its last value, so no handle carries it.
    #[verifier::type_invariant]
    spec fn below_limit(&self) -> bool {
        self.id < u64::MAX
    }

    /// The identity of this handle as a number: its place in the sequence of
    /// handles that an allocator can issue.
    pub closed spec fn spec_id(&self) -> u64 {
        self.id
    }

    /// The handle at place `n` of that sequence.
    pub closed spec fn nth(n: nat) -> RenderResource {
        RenderResource { id: n as u64 }
    }

    /// The identity of this handle as a number, for use as a map key or in
    /// diagnostics. The number carries no meaning beyond identity and order
    /// of issue.
    #[verifier::when_used_as_spec(spec_id)]
    pub fn id(&self) -> (r: u64)
        ensures
            r == self.spec_id(),
            r < u64::MAX,
    {
        proof {
            use_type_invariant(self);
        }
        self.id
    }

    /// Two handles are the same handle exactly when their identities agree.
    pub proof fn lemma_id_is_identity(a: RenderResource, b: RenderResource)
        ensures
            a.spec_id() == b.spec_id() <==> a == b,
    {
    }

    /// The handle at place `n` carries the identity `n`, and every handle is
    /// the one at the place that its identity names.
    pub proof fn lemma_nth_id(n: nat, handle: RenderResource)
        ensures
            n <= u64::MAX ==> Self::nth(n).spec_id() == n,
            Self::nth(handle.spec_id() as nat) == handle,
    {
    }
}

/// Issues resource handles from a monotonically increasing counter.
///
/// The counter only moves up, and every handle that the allocator issues
/// lies at or above the counter's value before and below its value after. So
/// a handle, once issued, is never issued again, whoever asks and for
/// whichever context. There is no operation that returns a handle to the
/// allocator.
#[derive(Debug)]
pub struct HandleAllocator {
    next: u64,
}

/// The place from which an allocator whose counter stands at `next` issues
/// when asked for a handle at or above `floor`.
pub open spec fn issue_place(next: nat, floor: nat) -> nat {
    if next >= floor {
        next
    } else {
        floor
    }
}

impl HandleAllocator {
    /// Where the counter stands: the lowest place that the allocator has
    /// neither issued nor passed over.
    pub closed spec fn next_place(&self) -> nat {
        self.next as nat
    }

    /// Whether `handle` lies below the counter, as every handle that this
    /// allocator has issued does.
    pub open spec fn covers(&self, handle: RenderResource) -> bool {
        handle.spec_id() < self.next_place()
    }

    /// Whether the counter has room for a handle at or above `floor`.
    pub open spec fn spec_can_allocate_from(&self, floor: u64) -> bool {
        issue_place(self.next_place(), floor as nat) < u64::MAX
    }

    /// Whether the counter has room for another handle.
    pub open spec fn spec_can_allocate(&self) -> bool {
        self.next_place() < u64::MAX
    }

    /// An allocator that has issued nothing yet.
    pub fn new() -> (allocator: Self)
        ensures
            allocator.next_place() == 0,
    {
        HandleAllocator { next: 0 }
    }

    /// Whether the counter has room for another handle.
    #[verifier::when_used_as_spec(spec_can_allocate)]
    pub fn can_allocate(&self) -> (r: bool)
        ensures
            r == self.spec_can_allocate(),
    {
        self.next < u64::MAX
    }

    /// Whether the counter has room for a handle at or above `floor`.
    #[verifier::when_used_as_spec(spec_can_allocate_from)]
    pub fn can_allocate_from(&self, floor: u64) -> (r: bool)
        ensures
            r == self.spec_can_allocate_from(floor),
    {
        self.next < u64::MAX && floor < u64::MAX
    }

    /// Issues the handle at the counter and moves the counter past it.
    pub fn allocate(&mut self) -> (handle: RenderResource)
        requires
            old(self).spec_can_allocate(),
        ensures
            handle == RenderResource::nth(old(self).next_place()),
            final(self).next_place() == old(self).next_place() + 1,
            !old(self).covers(handle),
            final(self).covers(handle),
    {
        let handle = RenderResource { id: self.next };
        self.next = self.next + 1;
        handle
    }

    /// Issues the first handle that lies neither below the counter nor below
    /// `floor`, and moves the counter past it. The places passed over are
    /// never issued.
    pub fn allocate_from(&mut self, floor: u64) -> (handle: RenderResource)
        requires
            old(self).spec_can_allocate_from(floor),
        ensures
            handle == RenderResource::nth(issue_place(old(self).next_place(), floor as nat)),
            handle.spec_id() == issue_place(old(self).next_place(), floor as nat),
            final(self).next_place() == handle.spec_id() + 1,
            !old(self).covers(handle),
            final(self).covers(handle),
    {
        if self.next < floor {
            self.next = floor;
        }
        self.allocate()
    }

    /// Handles at different places are different handles. Since an allocator
    /// issues each place at most once, any number of allocations from it
    /// yields pairwise distinct handles.
    pub proof fn lemma_allocations_distinct(i: nat, j: nat)
        requires
            i < u64::MAX,
            j < u64::MAX,
            i != j,
        ensures
            RenderResource::nth(i) != RenderResource::nth(j),
    {
    }

    /// A handle that an allocator does not cover differs from every handle
    /// that it covers: what is issued next differs from all that was issued
    /// before.
    pub proof fn lemma_uncovered_is_new(&self, fresh: RenderResource, earlier: RenderResource)
        requires
            !self.covers(fresh),
            self.covers(earlier),
        ensures
            fresh != earlier,
    {
    }
}

impl Default for HandleAllocator {
    fn default() -> (allocator: Self)
        ensures
            allocator.next_place() == 0,
    {
        HandleAllocator::new()
    }
}

/// Usage flags of a buffer, as a bit set.
#[derive(Clone, Copy, Debug, PartialEq, Eq, Structural, Hash)]
pub struct BufferUsage {
    pub bits: u32,
}

/// The shape of a buffer, fixed when the buffer is created.
#[derive(Clone, Copy, Debug, PartialEq, Eq, Structural, Hash)]
pub struct BufferInfo {
    /// Size of the buffer in bytes.
    pub size: usize,
    /// What the buffer may be used for.
    pub buffer_usage: BufferUsage,
    /// Whether the buffer's content is mapped for writing when it is created.
    pub mapped_at_creation: bool,
}

/// What a context knows about a live resource.
#[derive(Clone, Copy, Debug, PartialEq, Eq, Structural, Hash)]
pub enum ResourceInfo {
    Buffer(BufferInfo),
    Texture,
    Sampler,
}

} // verus!
