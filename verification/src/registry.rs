//! The metadata registry: which handles are live, and what each one refers to.
//!
//! Besides its entries the registry keeps a floor, a place above every handle
//! it has ever been given. A handle issued at or above the floor is therefore
//! new to the registry, whichever allocator the earlier handles came from.

use crate::render_resource::{issue_place, HandleAllocator, RenderResource, ResourceInfo};
use std::collections::HashMap;
use vstd::prelude::*;

verus! {

broadcast use vstd::std_specs::hash::group_hash_axioms;

/// What a registry with contents `resources` reports for `handle`: the
/// recorded metadata, or nothing when the handle is not registered.
pub open spec fn lookup_info(
    resources: Map<RenderResource, ResourceInfo>,
    handle: RenderResource,
) -> Option<ResourceInfo> {
    if resources.contains_key(handle) {
        Some(resources[handle])
    } else {
        None
    }
}

/// `lookup_info`, in the borrowed form in which a visitor receives it.
pub open spec fn lookup_info_ref<'a>(
    resources: &'a Map<RenderResource, ResourceInfo>,
    handle: RenderResource,
) -> Option<&'a ResourceInfo> {
    if resources.contains_key(handle) {
        Some(&resources[handle])
    } else {
        None
    }
}

/// The floor of a registry whose floor was `floor`, once it has been given
/// `handle`: the higher of `floor` and the place after `handle`.
pub open spec fn raised_floor(floor: nat, handle: RenderResource) -> nat {
    if handle.spec_id() < floor {
        floor
    } else {
        (handle.spec_id() + 1) as nat
    }
}

/// Maps each registered handle to the metadata recorded for it.
///
/// Entries appear on `insert` and `create` and disappear on `remove`; nothing
/// is collected automatically.
pub struct ResourceRegistry {
    entries: HashMap<u64, ResourceInfo>,
    floor: u64,
}

impl View for ResourceRegistry {
    type V = Map<RenderResource, ResourceInfo>;

    closed spec fn view(&self) -> Map<RenderResource, ResourceInfo> {
        Map::new(
            |handle: RenderResource| self.entries@.contains_key(handle.spec_id()),
            |handle: RenderResource| self.entries@[handle.spec_id()],
        )
    }
}

impl ResourceRegistry {
    /// Every handle that is registered lies below the floor.
    #[verifier::type_invariant]
    spec fn keys_below_floor(&self) -> bool {
        forall|key: u64| self.entries@.contains_key(key) ==> key < self.floor
    }

    /// A place above every handle that this registry was ever given.
    pub closed spec fn spec_floor(&self) -> nat {
        self.floor as nat
    }

    /// A registry with no entries.
    pub fn new() -> (registry: Self)
        ensures
            registry@ == Map::<RenderResource, ResourceInfo>::empty(),
            registry.spec_floor() == 0,
    {
        let registry = ResourceRegistry { entries: HashMap::new(), floor: 0 };
        assert(registry@ =~= Map::<RenderResource, ResourceInfo>::empty());
        registry
    }

    /// A place above every handle that this registry was ever given.
    pub fn floor(&self) -> (floor: u64)
        ensures
            floor == self.spec_floor(),
            forall|handle: RenderResource| self@.contains_key(handle) ==> handle.spec_id() < floor,
    {
        proof {
            use_type_invariant(self);
        }
        self.floor
    }

    /// Records `info` for `handle`, replacing whatever was recorded before,
    /// and raises the floor above `handle`.
    pub fn insert(&mut self, handle: RenderResource, info: ResourceInfo)
        ensures
            final(self)@ == old(self)@.insert(handle, info),
            final(self).spec_floor() == raised_floor(old(self).spec_floor(), handle),
    {
        proof {
            use_type_invariant(&*self);
        }
        let key = handle.id();
        let mut entries: HashMap<u64, ResourceInfo> = HashMap::new();
        core::mem::swap(&mut entries, &mut self.entries);
        entries.insert(key, info);
        if self.floor <= key {
            self.floor = key + 1;
        }
        self.entries = entries;
        proof {
            assert forall|other: RenderResource|
                other.spec_id() == handle.spec_id() implies other == handle by {
                RenderResource::lemma_id_is_identity(other, handle);
            }
            assert(self@ =~= old(self)@.insert(handle, info));
        }
    }

    /// Forgets `handle`. Does nothing when the handle is not registered.
    pub fn remove(&mut self, handle: RenderResource)
        ensures
            final(self)@ == old(self)@.remove(handle),
            final(self).spec_floor() == old(self).spec_floor(),
    {
        proof {
            use_type_invariant(&*self);
        }
        let key = handle.id();
        let mut entries: HashMap<u64, ResourceInfo> = HashMap::new();
        core::mem::swap(&mut entries, &mut self.entries);
        entries.remove(&key);
        self.entries = entries;
        proof {
            assert forall|other: RenderResource|
                other.spec_id() == handle.spec_id() implies other == handle by {
                RenderResource::lemma_id_is_identity(other, handle);
            }
            assert(self@ =~= old(self)@.remove(handle));
        }
    }

    /// Calls `visit` once, with the metadata recorded for `handle` or with
    /// `None` when the handle is not registered.
    pub fn get<F: FnOnce(Option<&ResourceInfo>)>(&self, handle: RenderResource, visit: F)
        requires
            call_requires(visit, (lookup_info_ref(&self@, handle),)),
        ensures
            call_ensures(visit, (lookup_info_ref(&self@, handle),), ()),
    {
        let key = handle.id();
        let found = self.entries.get(&key);
        visit(found)
    }

    /// Draws from `allocator` a handle that is new to this registry, and
    /// registers nothing for it.
    pub fn issue(&self, allocator: &mut HandleAllocator) -> (handle: RenderResource)
        requires
            issue_place(old(allocator).next_place(), self.spec_floor()) < u64::MAX,
        ensures
            handle == RenderResource::nth(
                issue_place(old(allocator).next_place(), self.spec_floor()),
            ),
            handle.spec_id() == issue_place(old(allocator).next_place(), self.spec_floor()),
            !self@.contains_key(handle),
            !old(allocator).covers(handle),
            final(allocator).next_place() == handle.spec_id() + 1,
    {
        proof {
            use_type_invariant(self);
        }
        allocator.allocate_from(self.floor)
    }

    /// Draws from `allocator` a handle that is new to this registry, and
    /// records `info` for it.
    pub fn create(&mut self, allocator: &mut HandleAllocator, info: ResourceInfo) -> (handle:
        RenderResource)
        requires
            issue_place(old(allocator).next_place(), old(self).spec_floor()) < u64::MAX,
        ensures
            handle == RenderResource::nth(
                issue_place(old(allocator).next_place(), old(self).spec_floor()),
            ),
            handle.spec_id() == issue_place(old(allocator).next_place(), old(self).spec_floor()),
            !old(self)@.contains_key(handle),
            !old(allocator).covers(handle),
            final(allocator).next_place() == handle.spec_id() + 1,
            final(self)@ == old(self)@.insert(handle, info),
            final(self).spec_floor() == raised_floor(old(self).spec_floor(), handle),
    {
        let handle = self.issue(allocator);
        self.insert(handle, info);
        handle
    }
}

impl Default for ResourceRegistry {
    fn default() -> (registry: Self)
        ensures
            registry@ == Map::<RenderResource, ResourceInfo>::empty(),
            registry.spec_floor() == 0,
    {
        ResourceRegistry::new()
    }
}

} // verus!
