//! Verified core of the dse editor: the block/table decoder for annotated TOML
//! configuration text, the model scene bookkeeping, the application record,
//! shader records, the Vulkan setup decisions and the window geometry.

pub mod application;
pub mod model;
pub mod shader;
pub mod text;
pub mod toml_decoder;
pub mod vk_api;
pub mod vk_base;
pub mod vk_setup;
pub mod window;
