use bevy_asset::{Handle, HandleUntyped};
use bevy_window::{Window, WindowDescriptor, WindowId};
use headless_render::context::RenderResourceContext;
use headless_render::headless::HeadlessRenderResourceContext;
use headless_render::render_resource::{
    BufferInfo, BufferUsage, HandleAllocator, RenderResource, ResourceInfo,
};
use headless_render::shader::{Shader, ShaderStage};
use headless_render::texture::{
    AddressMode, FilterMode, SamplerDescriptor, TextureDescriptor, TextureFormat, TextureUsage,
};

fn texture_descriptor() -> TextureDescriptor {
    TextureDescriptor {
        width: 64,
        height: 32,
        depth: 1,
        format: TextureFormat::Rgba8UnormSrgb,
        usage: TextureUsage { bits: 6 },
    }
}

fn sampler_descriptor() -> SamplerDescriptor {
    SamplerDescriptor {
        address_mode: AddressMode::ClampToEdge,
        mag_filter: FilterMode::Linear,
        min_filter: FilterMode::Nearest,
    }
}

fn buffer_info(size: usize) -> BufferInfo {
    BufferInfo { size, buffer_usage: BufferUsage { bits: 5 }, mapped_at_creation: false }
}

fn asset(id: u128) -> HandleUntyped {
    HandleUntyped::from(Handle::<Shader>::from_u128(id))
}

fn query(context: &HeadlessRenderResourceContext, handle: RenderResource) -> Option<ResourceInfo> {
    let mut calls = 0;
    let mut seen: Option<ResourceInfo> = None;
    context.get_resource_info(handle, |info: Option<&ResourceInfo>| {
        calls += 1;
        seen = info.copied();
    });
    assert_eq!(calls, 1);
    seen
}

/// The first handle of an allocator that no context in the test draws from.
fn foreign_handle() -> RenderResource {
    HandleAllocator::new().allocate()
}

#[test]
fn a_new_context_is_empty() {
    let handles = HandleAllocator::new();
    let context = HeadlessRenderResourceContext::new();
    assert!(context.can_allocate(&handles));
    assert_eq!(query(&context, foreign_handle()), None);
    assert_eq!(context.get_asset_resource_untyped(asset(1), 0), None);
    let context = HeadlessRenderResourceContext::default();
    assert_eq!(query(&context, foreign_handle()), None);
}

#[test]
fn create_texture_then_query_yields_texture() {
    let mut handles = HandleAllocator::new();
    let mut context = HeadlessRenderResourceContext::new();
    let handle = context.create_texture(&mut handles, &texture_descriptor());
    assert_eq!(query(&context, handle), Some(ResourceInfo::Texture));
}

#[test]
fn create_sampler_then_query_yields_sampler() {
    let mut handles = HandleAllocator::new();
    let mut context = HeadlessRenderResourceContext::new();
    let handle = context.create_sampler(&mut handles, &sampler_descriptor());
    assert_eq!(query(&context, handle), Some(ResourceInfo::Sampler));
}

#[test]
fn create_buffer_then_query_yields_its_descriptor() {
    let mut handles = HandleAllocator::new();
    let mut context = HeadlessRenderResourceContext::new();
    let info = BufferInfo {
        size: 256,
        buffer_usage: BufferUsage { bits: 9 },
        mapped_at_creation: true,
    };
    let handle = context.create_buffer(&mut handles, info);
    assert_eq!(query(&context, handle), Some(ResourceInfo::Buffer(info)));
}

#[test]
fn create_buffer_with_data_registers_the_descriptor() {
    let mut handles = HandleAllocator::new();
    let mut context = HeadlessRenderResourceContext::new();
    let info = buffer_info(4);
    let handle = context.create_buffer_with_data(&mut handles, info, &[1, 2, 3, 4]);
    assert_eq!(query(&context, handle), Some(ResourceInfo::Buffer(info)));
}

#[test]
fn created_handles_are_pairwise_distinct() {
    let mut handles = HandleAllocator::new();
    let mut context = HeadlessRenderResourceContext::new();
    let window_id = WindowId::new();
    let issued = vec![
        context.create_texture(&mut handles, &texture_descriptor()),
        context.create_sampler(&mut handles, &sampler_descriptor()),
        context.create_buffer(&mut handles, buffer_info(8)),
        context.create_buffer_with_data(&mut handles, buffer_info(2), &[0, 1]),
        context.next_swap_chain_texture(&mut handles, window_id),
        context.create_buffer_mapped(
        &mut handles,
        buffer_info(2), |_: &mut [u8], _: &mut HeadlessRenderResourceContext, _: &mut HandleAllocator| {}),
        context.create_texture(&mut handles, &texture_descriptor()),
    ];
    for i in 0..issued.len() {
        for j in 0..issued.len() {
            if i != j {
                assert_ne!(issued[i], issued[j]);
            }
        }
    }
}

#[test]
fn each_handle_keeps_its_own_metadata() {
    let mut handles = HandleAllocator::new();
    let mut context = HeadlessRenderResourceContext::new();
    let texture = context.create_texture(&mut handles, &texture_descriptor());
    let sampler = context.create_sampler(&mut handles, &sampler_descriptor());
    let buffer = context.create_buffer(&mut handles, buffer_info(8));
    assert_eq!(query(&context, texture), Some(ResourceInfo::Texture));
    assert_eq!(query(&context, sampler), Some(ResourceInfo::Sampler));
    assert_eq!(query(&context, buffer), Some(ResourceInfo::Buffer(buffer_info(8))));
}

#[test]
fn remove_then_query_yields_none() {
    let mut handles = HandleAllocator::new();
    let mut context = HeadlessRenderResourceContext::new();
    let texture = context.create_texture(&mut handles, &texture_descriptor());
    let sampler = context.create_sampler(&mut handles, &sampler_descriptor());
    let buffer = context.create_buffer(&mut handles, buffer_info(8));
    context.remove_texture(texture);
    assert_eq!(query(&context, texture), None);
    assert_eq!(query(&context, sampler), Some(ResourceInfo::Sampler));
    context.remove_sampler(sampler);
    assert_eq!(query(&context, sampler), None);
    context.remove_buffer(buffer);
    assert_eq!(query(&context, buffer), None);
}

#[test]
fn removing_twice_is_a_noop() {
    let mut handles = HandleAllocator::new();
    let mut context = HeadlessRenderResourceContext::new();
    let kept = context.create_sampler(&mut handles, &sampler_descriptor());
    let removed = context.create_texture(&mut handles, &texture_descriptor());
    context.remove_texture(removed);
    context.remove_texture(removed);
    context.remove_buffer(removed);
    assert_eq!(query(&context, removed), None);
    assert_eq!(query(&context, kept), Some(ResourceInfo::Sampler));
}

#[test]
fn removing_a_handle_that_was_never_created_is_a_noop() {
    let mut handles = HandleAllocator::new();
    let mut context = HeadlessRenderResourceContext::new();
    let kept = context.create_texture(&mut handles, &texture_descriptor());
    let stranger = handles.allocate();
    context.remove_buffer(stranger);
    context.remove_texture(stranger);
    context.remove_sampler(stranger);
    assert_eq!(query(&context, stranger), None);
    assert_eq!(query(&context, kept), Some(ResourceInfo::Texture));
}

#[test]
fn a_removed_handle_is_not_issued_again() {
    let mut handles = HandleAllocator::new();
    let mut context = HeadlessRenderResourceContext::new();
    let first = context.create_texture(&mut handles, &texture_descriptor());
    context.remove_texture(first);
    let second = context.create_texture(&mut handles, &texture_descriptor());
    assert_ne!(first, second);
    assert_eq!(query(&context, first), None);
    assert_eq!(query(&context, second), Some(ResourceInfo::Texture));
}

#[test]
fn add_resource_info_registers_and_overwrites() {
    let mut handles = HandleAllocator::new();
    let mut context = HeadlessRenderResourceContext::new();
    let handle = context.create_texture(&mut handles, &texture_descriptor());
    context.add_resource_info(handle, ResourceInfo::Sampler);
    assert_eq!(query(&context, handle), Some(ResourceInfo::Sampler));
    let stranger = handles.allocate();
    context.add_resource_info(stranger, ResourceInfo::Buffer(buffer_info(1)));
    assert_eq!(query(&context, stranger), Some(ResourceInfo::Buffer(buffer_info(1))));
    assert_eq!(query(&context, handle), Some(ResourceInfo::Sampler));
}

#[test]
fn mapped_buffer_setup_sees_a_zeroed_buffer_of_the_asked_size() {
    let mut handles = HandleAllocator::new();
    let mut context = HeadlessRenderResourceContext::new();
    let mut calls = 0;
    let mut seen: Vec<u8> = vec![9];
    let handle = context.create_buffer_mapped(
        &mut handles,
        buffer_info(37),
        |buffer: &mut [u8], _: &mut HeadlessRenderResourceContext, _: &mut HandleAllocator| {
            calls += 1;
            seen = buffer.to_vec();
            buffer[0] = 255;
            buffer[36] = 1;
        },
    );
    assert_eq!(calls, 1);
    assert_eq!(seen, vec![0u8; 37]);
    assert_eq!(query(&context, handle), None);
}

#[test]
fn mapped_buffer_of_size_zero_gets_an_empty_buffer() {
    let mut handles = HandleAllocator::new();
    let mut context = HeadlessRenderResourceContext::new();
    let mut seen: Option<usize> = None;
    context.create_buffer_mapped(
        &mut handles,
        buffer_info(0),
        |buffer: &mut [u8], _: &mut HeadlessRenderResourceContext, _: &mut HandleAllocator| {
            seen = Some(buffer.len());
        },
    );
    assert_eq!(seen, Some(0));
}

#[test]
fn mapped_buffer_setup_may_create_resources() {
    let mut handles = HandleAllocator::new();
    let mut context = HeadlessRenderResourceContext::new();
    let mut nested: Option<RenderResource> = None;
    let handle = context.create_buffer_mapped(
        &mut handles,
        buffer_info(4),
        |_: &mut [u8], inner: &mut HeadlessRenderResourceContext, inner_handles: &mut HandleAllocator| {
            nested = Some(inner.create_texture(inner_handles, &texture_descriptor()));
        },
    );
    let nested = nested.unwrap();
    assert_ne!(nested, handle);
    assert_eq!(query(&context, nested), Some(ResourceInfo::Texture));
    assert_eq!(query(&context, handle), None);
}

#[test]
fn binding_round_trip() {
    let mut handles = HandleAllocator::new();
    let mut context = HeadlessRenderResourceContext::new();
    let first = context.create_buffer(&mut handles, buffer_info(8));
    let second = context.create_buffer(&mut handles, buffer_info(16));
    context.set_asset_resource_untyped(asset(11), first, 3);
    assert_eq!(context.get_asset_resource_untyped(asset(11), 3), Some(first));
    context.set_asset_resource_untyped(asset(11), second, 3);
    assert_eq!(context.get_asset_resource_untyped(asset(11), 3), Some(second));
    assert_eq!(context.get_asset_resource_untyped(asset(11), 4), None);
    assert_eq!(context.get_asset_resource_untyped(asset(12), 3), None);
}

#[test]
fn a_binding_outlives_the_removal_of_its_handle() {
    let mut handles = HandleAllocator::new();
    let mut context = HeadlessRenderResourceContext::new();
    let handle = context.create_texture(&mut handles, &texture_descriptor());
    context.set_asset_resource_untyped(asset(5), handle, 0);
    context.remove_texture(handle);
    assert_eq!(query(&context, handle), None);
    assert_eq!(context.get_asset_resource_untyped(asset(5), 0), Some(handle));
}

#[test]
fn binding_does_not_register_metadata() {
    let mut context = HeadlessRenderResourceContext::new();
    let stranger = foreign_handle();
    context.set_asset_resource_untyped(asset(5), stranger, 0);
    assert_eq!(query(&context, stranger), None);
    assert_eq!(context.get_asset_resource_untyped(asset(5), 0), Some(stranger));
}

#[test]
fn swap_chain_operations_leave_the_bookkeeping_alone() {
    let mut handles = HandleAllocator::new();
    let mut context = HeadlessRenderResourceContext::new();
    let texture = context.create_texture(&mut handles, &texture_descriptor());
    context.set_asset_resource_untyped(asset(1), texture, 0);
    let window_id = WindowId::new();
    let window = Window::new(window_id, &WindowDescriptor::default());
    context.create_swap_chain(&window);
    let image = context.next_swap_chain_texture(&mut handles, window_id);
    assert_ne!(image, texture);
    assert_eq!(query(&context, image), None);
    context.drop_swap_chain_texture(image);
    context.drop_swap_chain_texture(texture);
    context.drop_all_swap_chain_textures();
    assert_eq!(query(&context, texture), Some(ResourceInfo::Texture));
    assert_eq!(context.get_asset_resource_untyped(asset(1), 0), Some(texture));
    let next = context.create_sampler(&mut handles, &sampler_descriptor());
    assert_ne!(next, image);
    assert_ne!(next, texture);
}

#[test]
fn create_shader_module_leaves_the_bookkeeping_alone() {
    let mut handles = HandleAllocator::new();
    let mut context = HeadlessRenderResourceContext::new();
    let texture = context.create_texture(&mut handles, &texture_descriptor());
    let shader = Shader { stage: ShaderStage::Vertex, source: String::from("void main() {}") };
    context.create_shader_module(Handle::<Shader>::from_u128(3), &shader);
    assert_eq!(query(&context, texture), Some(ResourceInfo::Texture));
    assert_eq!(context.get_asset_resource_untyped(asset(3), 0), None);
}

#[test]
fn scratch_buffer_is_zeroed_and_of_the_asked_size() {
    assert_eq!(headless_render::context::scratch_buffer(0), Vec::<u8>::new());
    assert_eq!(headless_render::context::scratch_buffer(5), vec![0u8, 0, 0, 0, 0]);
    assert_eq!(headless_render::context::scratch_buffer(4096), vec![0u8; 4096]);
}

#[test]
fn committing_a_mapped_buffer_issues_a_fresh_untracked_handle() {
    let mut handles = HandleAllocator::new();
    let mut context = HeadlessRenderResourceContext::new();
    let texture = context.create_texture(&mut handles, &texture_descriptor());
    let buffer = context.commit_mapped_buffer(&mut handles, buffer_info(3), &[1, 2, 3]);
    assert_ne!(buffer, texture);
    assert_eq!(query(&context, buffer), None);
    assert_eq!(query(&context, texture), Some(ResourceInfo::Texture));
}

#[test]
fn contexts_that_share_an_allocator_issue_different_handles() {
    let mut handles = HandleAllocator::new();
    let mut first = HeadlessRenderResourceContext::new();
    let mut second = HeadlessRenderResourceContext::new();
    let window_id = WindowId::new();
    let issued = vec![
        first.next_swap_chain_texture(&mut handles, window_id),
        second.next_swap_chain_texture(&mut handles, window_id),
        first.create_texture(&mut handles, &texture_descriptor()),
        second.create_texture(&mut handles, &texture_descriptor()),
        second.create_sampler(&mut handles, &sampler_descriptor()),
        first.create_buffer(&mut handles, buffer_info(1)),
    ];
    for i in 0..issued.len() {
        for j in 0..issued.len() {
            if i != j {
                assert_ne!(issued[i], issued[j]);
            }
        }
    }
    assert_eq!(query(&first, issued[3]), None);
    assert_eq!(query(&second, issued[2]), None);
}

#[test]
fn a_created_handle_is_new_to_a_registry_that_holds_a_foreign_handle() {
    let mut handles = HandleAllocator::new();
    let mut context = HeadlessRenderResourceContext::new();
    let stranger = foreign_handle();
    context.add_resource_info(stranger, ResourceInfo::Sampler);
    let texture = context.create_texture(&mut handles, &texture_descriptor());
    assert_ne!(texture, stranger);
    assert_eq!(query(&context, stranger), Some(ResourceInfo::Sampler));
    assert_eq!(query(&context, texture), Some(ResourceInfo::Texture));
    let sampler = context.create_sampler(&mut handles, &sampler_descriptor());
    let buffer = context.create_buffer(&mut handles, buffer_info(2));
    assert_ne!(sampler, stranger);
    assert_ne!(buffer, stranger);
    assert_eq!(query(&context, stranger), Some(ResourceInfo::Sampler));
}

#[test]
fn an_untracked_handle_is_new_to_a_registry_that_holds_a_foreign_handle() {
    let mut handles = HandleAllocator::new();
    let mut context = HeadlessRenderResourceContext::new();
    let stranger = foreign_handle();
    context.add_resource_info(stranger, ResourceInfo::Texture);
    let image = context.next_swap_chain_texture(&mut handles, WindowId::new());
    assert_ne!(image, stranger);
    assert_eq!(query(&context, image), None);
    let mapped = context.create_buffer_mapped(
        &mut handles,
        buffer_info(2),
        |_: &mut [u8], _: &mut HeadlessRenderResourceContext, _: &mut HandleAllocator| {},
    );
    assert_ne!(mapped, stranger);
    assert_ne!(mapped, image);
    assert_eq!(query(&context, mapped), None);
    assert_eq!(query(&context, stranger), Some(ResourceInfo::Texture));
}

#[test]
fn a_handle_stays_new_after_the_foreign_handle_was_removed() {
    let mut handles = HandleAllocator::new();
    let mut context = HeadlessRenderResourceContext::new();
    let mut other = HandleAllocator::new();
    other.allocate();
    other.allocate();
    let stranger = other.allocate();
    context.add_resource_info(stranger, ResourceInfo::Texture);
    context.remove_texture(stranger);
    let created = context.create_texture(&mut handles, &texture_descriptor());
    assert_eq!(created.id(), 3);
    assert_eq!(handles.allocate().id(), 4);
}
