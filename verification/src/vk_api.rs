//! The calls into `ash` that the library's logic makes.
use vstd::prelude::*;

verus! {

/// The packed Vulkan version number: variant in bits 29.., major in bits
/// 22.., minor in bits 12.., patch in the low bits (each shifted on `u32`).
pub open spec fn packed_api_version(variant: u32, major: u32, minor: u32, patch: u32) -> u32 {
    (variant << 29u32) | (major << 22u32) | (minor << 12u32) | patch
}

/// Calls `ash::vk::make_api_version`, whose body in ash is exactly
/// `(variant << 29) | (major << 22) | (minor << 12) | patch` on `u32`.
#[verifier::external_body]
pub(crate) fn make_api_version(variant: u32, major: u32, minor: u32, patch: u32) -> (v: u32)
    ensures
        v == packed_api_version(variant, major, minor, patch),
{
    ash::vk::make_api_version(variant, major, minor, patch)
}

/// The raw bit of `ash::vk::QueueFlags::GRAPHICS`.
pub open spec fn graphics_bit() -> u32 {
    1u32
}

/// Calls `ash::vk::QueueFlags::contains` with `QueueFlags::GRAPHICS` on the
/// flags whose raw value is `raw`; in ash `GRAPHICS` is `0b1` and `contains`
/// is `self.0 & other.0 == other.0`.
#[verifier::external_body]
pub(crate) fn queue_supports_graphics(raw: u32) -> (b: bool)
    ensures
        b == (raw & graphics_bit() == graphics_bit()),
{
    ash::vk::QueueFlags::from_raw(raw).contains(ash::vk::QueueFlags::GRAPHICS)
}

/// Calls `ash::vk::DebugUtilsMessageSeverityFlagsEXT::ERROR.as_raw()`; in ash
/// `ERROR` is `0b1_0000_0000_0000` and `as_raw` gives the bits unchanged.
#[verifier::external_body]
pub(crate) fn debug_error_severity_bits() -> (b: u32)
    ensures
        b == 0x1000u32,
{
    ash::vk::DebugUtilsMessageSeverityFlagsEXT::ERROR.as_raw()
}

/// Joins `ash::vk::DebugUtilsMessageTypeFlagsEXT::GENERAL`, `VALIDATION` and
/// `PERFORMANCE` with ash's `|` and calls `as_raw`; in ash they are `0b1`,
/// `0b10` and `0b100`, and `|` is the `|` of their bits.
#[verifier::external_body]
pub(crate) fn debug_all_message_type_bits() -> (b: u32)
    ensures
        b == 7u32,
{
    (ash::vk::DebugUtilsMessageTypeFlagsEXT::GENERAL | ash::vk::DebugUtilsMessageTypeFlagsEXT::VALIDATION
        | ash::vk::DebugUtilsMessageTypeFlagsEXT::PERFORMANCE).as_raw()
}

} // verus!
