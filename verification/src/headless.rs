//! The headless context: full bookkeeping, no hardware.

use crate::bindings::AssetBindingTable;
use crate::context::{scratch_buffer, zeroed, ContextState, RenderResourceContext};
use crate::registry::ResourceRegistry;
use crate::render_resource::{BufferInfo, HandleAllocator, RenderResource, ResourceInfo};
use crate::shader::Shader;
use crate::texture::{SamplerDescriptor, TextureDescriptor};
use bevy_asset::{Handle, HandleUntyped};
use bevy_window::{Window, WindowId};
use vstd::prelude::*;

verus! {

/// A resource context that keeps the bookkeeping of a real backend and does
/// nothing else: one metadata registry and one asset-binding table.
///
/// Swap-chain operations and shader-module creation leave the bookkeeping
/// untouched. A swap-chain texture gets a fresh handle but no metadata, since
/// it is a presentation image and not a general resource. A mapped buffer
/// gets a fresh handle but no metadata either, and the content that the setup
/// callback wrote is dropped.
pub struct HeadlessRenderResourceContext {
    resource_info: ResourceRegistry,
    asset_resources: AssetBindingTable,
}

impl HeadlessRenderResourceContext {
    /// A context that has registered nothing and bound nothing.
    pub fn new() -> (context: Self)
        ensures
            context.state() == ContextState::initial(),
    {
        HeadlessRenderResourceContext {
            resource_info: ResourceRegistry::new(),
            asset_resources: AssetBindingTable::new(),
        }
    }

    /// Records `resource_info` for `resource`, replacing whatever was
    /// recorded for it before. Handles that the context issues afterwards
    /// differ from `resource`, wherever it came from.
    pub fn add_resource_info(&mut self, resource: RenderResource, resource_info: ResourceInfo)
        ensures
            final(self).state() == old(self).state().register(resource, resource_info),
    {
        self.resource_info.insert(resource, resource_info);
    }

    /// Takes over the content of a mapped buffer once its setup is done.
    ///
    /// With no hardware to hold it, the content is dropped. The buffer gets
    /// a fresh handle, and no metadata is registered for it.
    pub fn commit_mapped_buffer(
        &mut self,
        allocator: &mut HandleAllocator,
        buffer_info: BufferInfo,
        content: &[u8],
    ) -> (resource: RenderResource)
        requires
            old(self).state().can_issue(old(allocator).next_place()),
        ensures
            resource == old(self).state().fresh_handle(old(allocator).next_place()),
            resource.spec_id() == old(self).state().fresh_place(old(allocator).next_place()),
            !old(self).state().resources.contains_key(resource),
            !old(allocator).covers(resource),
            final(allocator).next_place() == resource.spec_id() + 1,
            final(self).state() == old(self).state(),
    {
        self.resource_info.issue(allocator)
    }
}

impl Default for HeadlessRenderResourceContext {
    fn default() -> (context: Self)
        ensures
            context.state() == ContextState::initial(),
    {
        HeadlessRenderResourceContext::new()
    }
}

impl RenderResourceContext for HeadlessRenderResourceContext {
    closed spec fn state(&self) -> ContextState {
        ContextState {
            floor: self.resource_info.spec_floor(),
            resources: self.resource_info@,
            bindings: self.asset_resources@,
        }
    }

    fn can_allocate(&self, allocator: &HandleAllocator) -> (r: bool) {
        allocator.can_allocate_from(self.resource_info.floor())
    }

    /// Does nothing: there is no surface to present to.
    fn create_swap_chain(&mut self, window: &Window)
        ensures
            final(self).state() == old(self).state(),
    {
    }

    /// Issues a fresh handle and registers nothing for it.
    fn next_swap_chain_texture(&mut self, allocator: &mut HandleAllocator, window_id: WindowId) -> (texture:
        RenderResource)
        ensures
            final(self).state() == old(self).state(),
    {
        self.resource_info.issue(allocator)
    }

    /// Does nothing.
    fn drop_swap_chain_texture(&mut self, render_resource: RenderResource)
        ensures
            final(self).state() == old(self).state(),
    {
    }

    /// Does nothing.
    fn drop_all_swap_chain_textures(&mut self)
        ensures
            final(self).state() == old(self).state(),
    {
    }

    fn create_sampler(
        &mut self,
        allocator: &mut HandleAllocator,
        sampler_descriptor: &SamplerDescriptor,
    ) -> (resource: RenderResource) {
        self.resource_info.create(allocator, ResourceInfo::Sampler)
    }

    fn create_texture(
        &mut self,
        allocator: &mut HandleAllocator,
        texture_descriptor: &TextureDescriptor,
    ) -> (resource: RenderResource) {
        self.resource_info.create(allocator, ResourceInfo::Texture)
    }

    fn create_buffer(&mut self, allocator: &mut HandleAllocator, buffer_info: BufferInfo) -> (resource:
        RenderResource) {
        self.resource_info.create(allocator, ResourceInfo::Buffer(buffer_info))
    }

    /// Runs `setup_data` on a zeroed scratch buffer, drops the buffer, and
    /// issues a fresh handle without registering metadata for it.
    fn create_buffer_mapped<F: FnOnce(&mut [u8], &mut Self, &mut HandleAllocator)>(
        &mut self,
        allocator: &mut HandleAllocator,
        buffer_info: BufferInfo,
        setup_data: F,
    ) -> (resource: RenderResource)
        ensures
            exists|buffer: &mut [u8], context: &mut Self, handles: &mut HandleAllocator|
                {
                    &&& buffer@ == zeroed(buffer_info.size)
                    &&& *context == *old(self)
                    &&& *handles == *old(allocator)
                    &&& call_ensures(setup_data, (buffer, context, handles), ())
                    &&& resource == final(context).state().fresh_handle(
                        final(handles).next_place(),
                    )
                    &&& resource.spec_id() == final(context).state().fresh_place(
                        final(handles).next_place(),
                    )
                    &&& !final(handles).covers(resource)
                    &&& !final(context).state().resources.contains_key(resource)
                    &&& final(self).state() == final(context).state()
                },
    {
        let mut buffer = scratch_buffer(buffer_info.size);
        setup_data(buffer.as_mut_slice(), self, allocator);
        self.commit_mapped_buffer(allocator, buffer_info, buffer.as_slice())
    }

    /// Registers the buffer's descriptor and drops `data`.
    fn create_buffer_with_data(
        &mut self,
        allocator: &mut HandleAllocator,
        buffer_info: BufferInfo,
        data: &[u8],
    ) -> (resource: RenderResource) {
        self.resource_info.create(allocator, ResourceInfo::Buffer(buffer_info))
    }

    /// Does nothing: nothing is compiled.
    fn create_shader_module(&mut self, shader_handle: Handle<Shader>, shader: &Shader)
        ensures
            final(self).state() == old(self).state(),
    {
    }

    fn remove_buffer(&mut self, resource: RenderResource) {
        self.resource_info.remove(resource);
    }

    fn remove_texture(&mut self, resource: RenderResource) {
        self.resource_info.remove(resource);
    }

    fn remove_sampler(&mut self, resource: RenderResource) {
        self.resource_info.remove(resource);
    }

    fn get_resource_info<F: FnOnce(Option<&ResourceInfo>)>(
        &self,
        resource: RenderResource,
        handle_info: F,
    ) {
        self.resource_info.get(resource, handle_info);
    }

    fn set_asset_resource_untyped(
        &mut self,
        handle: HandleUntyped,
        render_resource: RenderResource,
        index: usize,
    ) {
        self.asset_resources.bind(handle, index, render_resource);
    }

    fn get_asset_resource_untyped(&self, handle: HandleUntyped, index: usize) -> (resource: Option<
        RenderResource,
    >) {
        self.asset_resources.resolve(handle, index)
    }
}

} // verus!
