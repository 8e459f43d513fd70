//! The values of `vulkano` that the choices rest on. The two flag sets, the
//! extensions an adapter offers and the capabilities of a queue family, are
//! known here by the names of the members that are set. A surface's pixel
//! format, colour space and blending mode are only handed on.

use vstd::prelude::*;
use vulkano::device::{DeviceExtensions, QueueFlags};
use vulkano::format::Format;
use vulkano::swapchain::{ColorSpace, CompositeAlpha};

verus! {

/// `vulkano::device::DeviceExtensions`: one flag per device extension.
#[verifier::external_type_specification]
#[verifier::external_body]
pub struct ExDeviceExtensions(DeviceExtensions);

/// `vulkano::device::QueueFlags`: one bit per capability of a queue family.
#[verifier::external_type_specification]
#[verifier::external_body]
pub struct ExQueueFlags(QueueFlags);

/// `vulkano::format::Format`: a pixel format.
#[verifier::external_type_specification]
#[verifier::external_body]
pub struct ExFormat(Format);

/// `vulkano::swapchain::ColorSpace`: how the values of a format are read.
#[verifier::external_type_specification]
#[verifier::external_body]
pub struct ExColorSpace(ColorSpace);

/// `vulkano::swapchain::CompositeAlpha`: how a presented image is blended
/// with what lies behind the window.
#[verifier::external_type_specification]
#[verifier::external_body]
pub struct ExCompositeAlpha(CompositeAlpha);

/// The extensions that are set, by the names Vulkan gives them
/// (`VK_KHR_swapchain` and the like).
pub uninterp spec fn extension_names(extensions: DeviceExtensions) -> Set<Seq<char>>;

/// The capabilities that are set, by the names of their flags (`GRAPHICS`,
/// `COMPUTE` and the like).
pub uninterp spec fn capability_names(flags: QueueFlags) -> Set<Seq<char>>;

/// The name of the swapchain-presentation extension.
pub open spec fn khr_swapchain() -> Seq<char> {
    "VK_KHR_swapchain"@
}

/// The name of the graphics capability.
pub open spec fn graphics() -> Seq<char> {
    "GRAPHICS"@
}

/// The name of the compute capability.
pub open spec fn compute() -> Seq<char> {
    "COMPUTE"@
}

/// `DeviceExtensions::contains`: whether every extension set in `wanted` is
/// set in `offered`.
#[verifier::external_body]
pub(crate) fn offers_extensions(offered: &DeviceExtensions, wanted: &DeviceExtensions) -> (all: bool)
    ensures
        all == extension_names(*wanted).subset_of(extension_names(*offered)),
{
    offered.contains(wanted)
}

/// `DeviceExtensions::empty` with its member `khr_swapchain` set: the set
/// that holds the swapchain-presentation extension and nothing else.
#[verifier::external_body]
pub(crate) fn swapchain_extension() -> (only: DeviceExtensions)
    ensures
        extension_names(only) == Set::<Seq<char>>::empty().insert(khr_swapchain()),
{
    DeviceExtensions { khr_swapchain: true, ..DeviceExtensions::empty() }
}

/// `QueueFlags::contains`: whether every capability set in `wanted` is set
/// in `offered`.
#[verifier::external_body]
pub(crate) fn offers_capabilities(offered: QueueFlags, wanted: QueueFlags) -> (all: bool)
    ensures
        all == capability_names(wanted).subset_of(capability_names(offered)),
{
    offered.contains(wanted)
}

/// `QueueFlags::GRAPHICS`: the graphics capability alone.
#[verifier::external_body]
pub(crate) fn graphics_capability() -> (only: QueueFlags)
    ensures
        capability_names(only) == Set::<Seq<char>>::empty().insert(graphics()),
{
    QueueFlags::GRAPHICS
}

/// `QueueFlags::COMPUTE`: the compute capability alone.
#[verifier::external_body]
pub(crate) fn compute_capability() -> (only: QueueFlags)
    ensures
        capability_names(only) == Set::<Seq<char>>::empty().insert(compute()),
{
    QueueFlags::COMPUTE
}

} // verus!
