//! A verified, backend-agnostic bookkeeping layer for GPU-resident render
//! resources: opaque handles, a metadata registry, an asset-binding table and
//! a headless context that wires them together without touching hardware.
//!
//! Every context here is a plain owned value whose operations take `&mut self`.
//! Contracts relate the state before a call to the state after it; sharing a
//! context between threads is left to the embedding application, which wraps
//! its parts in locks of its choice.
//!
//! Handles come from a [`render_resource::HandleAllocator`] that the caller
//! owns and hands to every operation that issues one. A process that gives
//! all its contexts the same allocator gets handles that are unique
//! throughout.

pub mod bindings;
pub mod context;
pub mod headless;
pub mod registry;
pub mod render_resource;
pub mod shader;
pub mod texture;
pub mod ui;
