//! Derives GPU binding layouts and push-constant ranges from a shader
//! module, and checks that every binding a layout asks for is supplied.
pub mod bind_group;
pub mod ir_utils;
pub mod layout;
pub mod pragma;
pub mod preprocessing;
pub mod reflector;
pub mod requirements;
pub mod shader;
pub mod traits;

pub use bind_group::{BindGroupError, BindGroups};
pub use reflector::{resolve_pass, BindGroupLayoutDescriptor, ComputeReflector, Error, PassPlan};
pub use requirements::{
    create_bind_group_entries, BindGroupEntry, BindSlot, BindingResource, PassSlot,
};
