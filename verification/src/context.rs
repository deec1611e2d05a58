//! The resource-context interface: the operations that every backend offers,
//! stated over an abstract model of a context's bookkeeping.

use crate::bindings::lookup_binding;
use crate::registry::{lookup_info, lookup_info_ref, raised_floor};
use crate::render_resource::{
    issue_place, BufferInfo, HandleAllocator, RenderResource, ResourceInfo,
};
use crate::shader::Shader;
use crate::texture::{SamplerDescriptor, TextureDescriptor};
use bevy_asset::{Handle, HandleUntyped};
use bevy_window::{Window, WindowId};
use vstd::prelude::*;

verus! {

/// `bevy_window::Window`. A context only passes it through.
#[verifier::external_type_specification]
#[verifier::external_body]
pub struct ExWindow(Window);

/// `bevy_window::WindowId`. A context only passes it through.
#[verifier::external_type_specification]
#[verifier::external_body]
pub struct ExWindowId(WindowId);

/// `bevy_asset::Handle`, a typed asset handle. A context only passes it through.
#[verifier::external_type_specification]
#[verifier::external_body]
#[verifier::reject_recursive_types(T)]
pub struct ExHandle<T: 'static>(Handle<T>);

/// The bookkeeping of a resource context, as mathematical values.
#[verifier::ext_equal]
pub struct ContextState {
    /// A place above every handle that the registry was ever given.
    pub floor: nat,
    /// The metadata registry.
    pub resources: Map<RenderResource, ResourceInfo>,
    /// The asset-binding table.
    pub bindings: Map<(HandleUntyped, usize), RenderResource>,
}

impl ContextState {
    /// The state of a context that has done nothing yet.
    pub open spec fn initial() -> ContextState {
        ContextState { floor: 0, resources: Map::empty(), bindings: Map::empty() }
    }

    /// The place of the handle that this context draws from an allocator
    /// whose counter stands at `next`: the first one at or above both the
    /// counter and the registry's floor.
    pub open spec fn fresh_place(self, next: nat) -> nat {
        issue_place(next, self.floor)
    }

    /// Whether an allocator whose counter stands at `next` has room for a
    /// handle that is new to this context.
    pub open spec fn can_issue(self, next: nat) -> bool {
        self.fresh_place(next) < u64::MAX
    }

    /// The handle that this context draws from an allocator whose counter
    /// stands at `next`.
    pub open spec fn fresh_handle(self, next: nat) -> RenderResource {
        RenderResource::nth(self.fresh_place(next))
    }

    /// The state after `info` was recorded for `handle`.
    pub open spec fn register(self, handle: RenderResource, info: ResourceInfo) -> ContextState {
        ContextState {
            floor: raised_floor(self.floor, handle),
            resources: self.resources.insert(handle, info),
            ..self
        }
    }

    /// The state after a resource described by `info` was created with an
    /// allocator whose counter stood at `next`.
    pub open spec fn create(self, next: nat, info: ResourceInfo) -> ContextState {
        self.register(self.fresh_handle(next), info)
    }

    /// The state after the metadata of `handle` was dropped.
    pub open spec fn remove(self, handle: RenderResource) -> ContextState {
        ContextState { resources: self.resources.remove(handle), ..self }
    }

    /// The state after `handle` was bound to slot `index` of `asset`.
    pub open spec fn bind(
        self,
        asset: HandleUntyped,
        index: usize,
        handle: RenderResource,
    ) -> ContextState {
        ContextState { bindings: self.bindings.insert((asset, index), handle), ..self }
    }

    /// The metadata recorded for `handle`, if any.
    pub open spec fn info(self, handle: RenderResource) -> Option<ResourceInfo> {
        lookup_info(self.resources, handle)
    }

    /// The handle bound to slot `index` of `asset`, if any.
    pub open spec fn resolve(self, asset: HandleUntyped, index: usize) -> Option<RenderResource> {
        lookup_binding(self.bindings, asset, index)
    }

    /// Whether every registered handle lies below the floor, as it does in
    /// the state of every context.
    pub open spec fn floor_is_above(self) -> bool {
        forall|handle: RenderResource| #[trigger]
            self.resources.contains_key(handle) ==> handle.spec_id() < self.floor
    }
}

impl ContextState {
    /// A resource that was just created is registered under the metadata it
    /// was created with, and under the handle that the creation returned.
    /// The bindings stay as they were.
    pub proof fn lemma_create_then_query(self, next: nat, info: ResourceInfo)
        ensures
            self.create(next, info).info(self.fresh_handle(next)) == Some(info),
            self.create(next, info).bindings == self.bindings,
    {
    }

    /// The handle that a creation returns was not registered before, so the
    /// creation adds exactly one entry and leaves the metadata of every
    /// handle that was registered as it was.
    pub proof fn lemma_created_handle_is_new(
        self,
        next: nat,
        info: ResourceInfo,
        other: RenderResource,
    )
        requires
            self.floor_is_above(),
            self.can_issue(next),
        ensures
            !self.resources.contains_key(self.fresh_handle(next)),
            self.resources.contains_key(other) ==> self.create(next, info).info(other)
                == self.info(other),
            self.create(next, info).floor_is_above(),
    {
        let place = self.fresh_place(next);
        RenderResource::lemma_nth_id(place, other);
        assert(self.fresh_handle(next).spec_id() == place);
        assert forall|handle: RenderResource| #[trigger]
            self.create(next, info).resources.contains_key(handle) implies handle.spec_id()
            < self.create(next, info).floor by {
            if handle != self.fresh_handle(next) {
                assert(self.resources.contains_key(handle));
            }
        }
    }

    /// After a handle was removed, a query for it finds nothing, whatever was
    /// registered before; queries for other handles are unaffected.
    pub proof fn lemma_remove_then_query(self, handle: RenderResource, other: RenderResource)
        ensures
            self.remove(handle).info(handle) is None,
            other != handle ==> self.remove(handle).info(other) == self.info(other),
    {
    }

    /// Removing a handle that is not registered changes nothing; in
    /// particular, removing a handle a second time changes nothing.
    pub proof fn lemma_remove_absent_is_noop(self, handle: RenderResource)
        ensures
            !self.resources.contains_key(handle) ==> self.remove(handle) == self,
            self.remove(handle).remove(handle) == self.remove(handle),
    {
        if !self.resources.contains_key(handle) {
            assert(self.remove(handle) =~= self);
        }
        assert(self.remove(handle).remove(handle) =~= self.remove(handle));
    }

    /// A binding resolves to the handle that was bound last; slots that were
    /// not touched resolve as before, and a slot that was never bound
    /// resolves to nothing.
    pub proof fn lemma_bind_then_resolve(
        self,
        asset: HandleUntyped,
        index: usize,
        first: RenderResource,
        second: RenderResource,
        other_asset: HandleUntyped,
        other_index: usize,
    )
        ensures
            self.bind(asset, index, first).resolve(asset, index) == Some(first),
            self.bind(asset, index, first).bind(asset, index, second).resolve(asset, index)
                == Some(second),
            (other_asset, other_index) != (asset, index) ==> self.bind(
                asset,
                index,
                first,
            ).resolve(other_asset, other_index) == self.resolve(other_asset, other_index),
            !self.bindings.contains_key((other_asset, other_index)) ==> self.resolve(
                other_asset,
                other_index,
            ) is None,
    {
    }

    /// The binding table keeps no track of liveness: a binding outlives the
    /// removal of the handle it names, and no removal or creation changes any
    /// binding.
    pub proof fn lemma_binding_survives_removal(
        self,
        asset: HandleUntyped,
        index: usize,
        handle: RenderResource,
        removed: RenderResource,
        next: nat,
        info: ResourceInfo,
    )
        ensures
            self.bind(asset, index, handle).remove(handle).resolve(asset, index) == Some(handle),
            self.remove(removed).bindings == self.bindings,
            self.create(next, info).bindings == self.bindings,
            self.bind(asset, index, handle).resources == self.resources,
    {
    }
}

/// A scratch buffer of `size` zero bytes.
pub open spec fn zeroed(size: usize) -> Seq<u8> {
    Seq::new(size as nat, |i: int| 0u8)
}

/// Allocates the scratch buffer that the setup of a mapped buffer of `size`
/// bytes writes into: `size` bytes, all zero.
pub fn scratch_buffer(size: usize) -> (buffer: Vec<u8>)
    ensures
        buffer@ == zeroed(size),
{
    let buffer: Vec<u8> = vec![0u8; size];
    assert(buffer@ =~= zeroed(size));
    buffer
}

/// The operations of a resource context.
///
/// Each contract relates [`RenderResourceContext::state`] before the call to
/// the state after it. Where an operation's effect on the bookkeeping is up to
/// the backend, the contract here is silent and the backend's own states it.
///
/// A context owns no handle allocator. Every operation that issues a handle
/// draws it from the allocator it is given, so that all contexts that are
/// given the same allocator hand out different handles. The handle is also
/// new to the context's registry, whatever was registered there before.
pub trait RenderResourceContext: Sized {
    /// The context's bookkeeping.
    spec fn state(&self) -> ContextState;

    /// Whether `allocator` has room for a handle that is new to this
    /// context, which every operation that issues one asks for. In passing
    /// it tells the caller what holds of every context: the floor lies above
    /// all that is registered.
    fn can_allocate(&self, allocator: &HandleAllocator) -> (r: bool)
        ensures
            r == self.state().can_issue(allocator.next_place()),
            self.state().floor_is_above(),
    ;

    /// Prepares presentation to `window`.
    fn create_swap_chain(&mut self, window: &Window);

    /// Issues a handle for the next image to present to the window. What is
    /// registered for it, if anything, is up to the backend.
    fn next_swap_chain_texture(&mut self, allocator: &mut HandleAllocator, window_id: WindowId) -> (texture:
        RenderResource)
        requires
            old(self).state().can_issue(old(allocator).next_place()),
        ensures
            texture == old(self).state().fresh_handle(old(allocator).next_place()),
            texture.spec_id() == old(self).state().fresh_place(old(allocator).next_place()),
            !old(self).state().resources.contains_key(texture),
            !old(allocator).covers(texture),
            final(allocator).next_place() == texture.spec_id() + 1,
    ;

    /// Releases one presentation image.
    fn drop_swap_chain_texture(&mut self, render_resource: RenderResource);

    /// Releases every presentation image.
    fn drop_all_swap_chain_textures(&mut self);

    /// Creates a sampler and registers it.
    fn create_sampler(
        &mut self,
        allocator: &mut HandleAllocator,
        sampler_descriptor: &SamplerDescriptor,
    ) -> (resource: RenderResource)
        requires
            old(self).state().can_issue(old(allocator).next_place()),
        ensures
            resource == old(self).state().fresh_handle(old(allocator).next_place()),
            resource.spec_id() == old(self).state().fresh_place(old(allocator).next_place()),
            !old(self).state().resources.contains_key(resource),
            !old(allocator).covers(resource),
            final(allocator).next_place() == resource.spec_id() + 1,
            final(self).state() == old(self).state().register(resource, ResourceInfo::Sampler),
    ;

    /// Creates a texture and registers it.
    fn create_texture(
        &mut self,
        allocator: &mut HandleAllocator,
        texture_descriptor: &TextureDescriptor,
    ) -> (resource: RenderResource)
        requires
            old(self).state().can_issue(old(allocator).next_place()),
        ensures
            resource == old(self).state().fresh_handle(old(allocator).next_place()),
            resource.spec_id() == old(self).state().fresh_place(old(allocator).next_place()),
            !old(self).state().resources.contains_key(resource),
            !old(allocator).covers(resource),
            final(allocator).next_place() == resource.spec_id() + 1,
            final(self).state() == old(self).state().register(resource, ResourceInfo::Texture),
    ;

    /// Creates a buffer and registers it under its descriptor.
    fn create_buffer(&mut self, allocator: &mut HandleAllocator, buffer_info: BufferInfo) -> (resource:
        RenderResource)
        requires
            old(self).state().can_issue(old(allocator).next_place()),
        ensures
            resource == old(self).state().fresh_handle(old(allocator).next_place()),
            resource.spec_id() == old(self).state().fresh_place(old(allocator).next_place()),
            !old(self).state().resources.contains_key(resource),
            !old(allocator).covers(resource),
            final(allocator).next_place() == resource.spec_id() + 1,
            final(self).state() == old(self).state().register(
                resource,
                ResourceInfo::Buffer(buffer_info),
            ),
    ;

    /// Creates a buffer whose content the caller writes through `setup_data`.
    ///
    /// `setup_data` runs exactly once, on a scratch buffer of
    /// `buffer_info.size` zero bytes, on this context and on the allocator,
    /// with which it may create further resources. It must leave the
    /// allocator's counter no lower than it found it. The buffer's handle is
    /// issued after `setup_data` has returned, so it differs from every
    /// handle issued before the call and during it. Whether the new buffer's
    /// descriptor is registered is the backend's choice; nothing else in the
    /// bookkeeping changes.
    fn create_buffer_mapped<F: FnOnce(&mut [u8], &mut Self, &mut HandleAllocator)>(
        &mut self,
        allocator: &mut HandleAllocator,
        buffer_info: BufferInfo,
        setup_data: F,
    ) -> (resource: RenderResource)
        requires
            forall|buffer: &mut [u8], context: &mut Self, handles: &mut HandleAllocator|
                buffer@ == zeroed(buffer_info.size) && *context == *old(self) && *handles == *old(
                    allocator,
                ) ==> call_requires(setup_data, (buffer, context, handles)),
            forall|buffer: &mut [u8], context: &mut Self, handles: &mut HandleAllocator|
                buffer@ == zeroed(buffer_info.size) && *context == *old(self) && *handles == *old(
                    allocator,
                ) && call_ensures(setup_data, (buffer, context, handles), ()) ==> {
                    &&& old(allocator).next_place() <= final(handles).next_place()
                    &&& final(context).state().can_issue(final(handles).next_place())
                },
        ensures
            !old(allocator).covers(resource),
            final(allocator).next_place() == resource.spec_id() + 1,
            exists|buffer: &mut [u8], context: &mut Self, handles: &mut HandleAllocator|
                {
                    &&& buffer@ == zeroed(buffer_info.size)
                    &&& *context == *old(self)
                    &&& *handles == *old(allocator)
                    &&& call_ensures(setup_data, (buffer, context, handles), ())
                    &&& resource == final(context).state().fresh_handle(
                        final(handles).next_place(),
                    )
                    &&& resource.spec_id() == final(context).state().fresh_place(
                        final(handles).next_place(),
                    )
                    &&& !final(handles).covers(resource)
                    &&& !final(context).state().resources.contains_key(resource)
                    &&& (final(self).state() == final(context).state() || final(self).state()
                        == final(context).state().register(
                        resource,
                        ResourceInfo::Buffer(buffer_info),
                    ))
                },
    ;

    /// Creates a buffer with initial content `data` and registers it under
    /// its descriptor.
    fn create_buffer_with_data(
        &mut self,
        allocator: &mut HandleAllocator,
        buffer_info: BufferInfo,
        data: &[u8],
    ) -> (resource: RenderResource)
        requires
            old(self).state().can_issue(old(allocator).next_place()),
        ensures
            resource == old(self).state().fresh_handle(old(allocator).next_place()),
            resource.spec_id() == old(self).state().fresh_place(old(allocator).next_place()),
            !old(self).state().resources.contains_key(resource),
            !old(allocator).covers(resource),
            final(allocator).next_place() == resource.spec_id() + 1,
            final(self).state() == old(self).state().register(
                resource,
                ResourceInfo::Buffer(buffer_info),
            ),
    ;

    /// Makes `shader`, the asset that the shader store holds for
    /// `shader_handle`, ready for use.
    fn create_shader_module(&mut self, shader_handle: Handle<Shader>, shader: &Shader);

    /// Drops the metadata of a buffer. Does nothing when `resource` is not
    /// registered.
    fn remove_buffer(&mut self, resource: RenderResource)
        ensures
            final(self).state() == old(self).state().remove(resource),
    ;

    /// Drops the metadata of a texture. Does nothing when `resource` is not
    /// registered.
    fn remove_texture(&mut self, resource: RenderResource)
        ensures
            final(self).state() == old(self).state().remove(resource),
    ;

    /// Drops the metadata of a sampler. Does nothing when `resource` is not
    /// registered.
    fn remove_sampler(&mut self, resource: RenderResource)
        ensures
            final(self).state() == old(self).state().remove(resource),
    ;

    /// Calls `handle_info` once, with the metadata registered for `resource`
    /// or with `None` when there is none.
    fn get_resource_info<F: FnOnce(Option<&ResourceInfo>)>(
        &self,
        resource: RenderResource,
        handle_info: F,
    )
        requires
            call_requires(handle_info, (lookup_info_ref(&self.state().resources, resource),)),
        ensures
            call_ensures(handle_info, (lookup_info_ref(&self.state().resources, resource),), ()),
    ;

    /// Binds `render_resource` to slot `index` of the asset `handle`,
    /// replacing any earlier binding of that slot.
    fn set_asset_resource_untyped(
        &mut self,
        handle: HandleUntyped,
        render_resource: RenderResource,
        index: usize,
    )
        ensures
            final(self).state() == old(self).state().bind(handle, index, render_resource),
    ;

    /// The resource bound to slot `index` of the asset `handle`, if any.
    fn get_asset_resource_untyped(&self, handle: HandleUntyped, index: usize) -> (resource: Option<
        RenderResource,
    >)
        ensures
            resource == self.state().resolve(handle, index),
    ;
}

} // verus!
