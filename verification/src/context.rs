//! Acquisition of the GPU context: which adapter, which queue family, which
//! swapchain. The host probes the machine and creates the handles; every
//! choice among what it found is made here.

use vstd::prelude::*;
use vulkano::device::{DeviceExtensions, QueueFlags};
use vulkano::format::Format;
use vulkano::swapchain::{ColorSpace, CompositeAlpha};
use crate::vulkan::{
    capability_names, compute, compute_capability, extension_names, graphics,
    graphics_capability, khr_swapchain, offers_capabilities, offers_extensions,
    swapchain_extension,
};

verus! {

/// Why the GPU context could not be built.
#[derive(Clone, Copy, Debug, PartialEq, Eq, Structural)]
pub enum ContextError {
    NoCompatibleAdapter,
    NoGraphicsQueueFamily,
    DeviceCreationFailed,
    SurfaceCreationFailed,
    SwapchainCreationFailed,
}

/// What one queue family advertises.
#[derive(Clone, Copy, Debug, PartialEq, Eq)]
pub struct QueueFamily {
    pub queue_count: u32,
    pub flags: QueueFlags,
}

impl QueueFamily {
    /// The family can execute graphics operations.
    pub open spec fn has_graphics(self) -> bool {
        capability_names(self.flags).contains(graphics())
    }

    /// The family can execute compute operations.
    pub open spec fn has_compute(self) -> bool {
        capability_names(self.flags).contains(compute())
    }

    /// Whether the family can execute graphics operations.
    pub fn supports_graphics(&self) -> (yes: bool)
        ensures
            yes == self.has_graphics(),
    {
        let wanted = graphics_capability();
        assert(capability_names(wanted).contains(graphics()));
        offers_capabilities(self.flags, wanted)
    }

    /// Whether the family can execute compute operations.
    pub fn supports_compute(&self) -> (yes: bool)
        ensures
            yes == self.has_compute(),
    {
        let wanted = compute_capability();
        assert(capability_names(wanted).contains(compute()));
        offers_capabilities(self.flags, wanted)
    }
}

/// What the host learned about one adapter: the extensions it supports and
/// its queue families, in the order of their indices.
#[derive(Debug)]
pub struct Adapter {
    pub extensions: DeviceExtensions,
    pub queue_families: Vec<QueueFamily>,
}

/// The adapter and queue family that the logical device is opened on.
#[derive(Clone, Copy, Debug, PartialEq, Eq, Structural)]
pub struct DeviceSelection {
    pub adapter_index: usize,
    pub queue_family_index: u32,
    pub queue_supports_compute: bool,
}

/// `adapter` offers every extension in `required`.
pub open spec fn compatible(adapter: Adapter, required: Set<Seq<char>>) -> bool {
    required.subset_of(extension_names(adapter.extensions))
}

/// `i` is the position of the first compatible adapter.
pub open spec fn is_first_compatible(adapters: Seq<Adapter>, required: Set<Seq<char>>, i: int) -> bool {
    &&& 0 <= i < adapters.len()
    &&& compatible(adapters[i], required)
    &&& forall|j: int| 0 <= j < i ==> !compatible(#[trigger] adapters[j], required)
}

/// No adapter of the list is compatible.
pub open spec fn none_compatible(adapters: Seq<Adapter>, required: Set<Seq<char>>) -> bool {
    forall|j: int| 0 <= j < adapters.len() ==> !compatible(#[trigger] adapters[j], required)
}

/// `k` is the position of the first queue family with the graphics capability.
pub open spec fn is_first_graphics(families: Seq<QueueFamily>, k: int) -> bool {
    &&& 0 <= k < families.len()
    &&& families[k].has_graphics()
    &&& forall|j: int| 0 <= j < k ==> !(#[trigger] families[j]).has_graphics()
}

/// No queue family that can be named has the graphics capability. The index
/// of a queue family is a 32-bit number: a family behind that range cannot
/// be asked for and does not count.
pub open spec fn none_graphics(families: Seq<QueueFamily>) -> bool {
    forall|j: int|
        0 <= j < families.len() && j <= u32::MAX ==> !(#[trigger] families[j]).has_graphics()
}

/// The first adapter offering every required extension.
pub fn select_adapter(adapters: &Vec<Adapter>, required: &DeviceExtensions) -> (r: Result<
    usize,
    ContextError,
>)
    ensures
        match r {
            Ok(i) => is_first_compatible(adapters@, extension_names(*required), i as int),
            Err(e) => e == ContextError::NoCompatibleAdapter && none_compatible(
                adapters@,
                extension_names(*required),
            ),
        },
{
    let mut i: usize = 0;
    while i < adapters.len()
        invariant
            i <= adapters@.len(),
            forall|j: int| 0 <= j < i ==> !compatible(#[trigger] adapters@[j], extension_names(*required)),
        decreases adapters@.len() - i,
    {
        if offers_extensions(&adapters[i].extensions, required) {
            return Ok(i);
        }
        i += 1;
    }
    Err(ContextError::NoCompatibleAdapter)
}

/// The first queue family with the graphics capability.
pub fn select_queue_family(families: &Vec<QueueFamily>) -> (r: Result<u32, ContextError>)
    ensures
        match r {
            Ok(k) => is_first_graphics(families@, k as int),
            Err(e) => e == ContextError::NoGraphicsQueueFamily && none_graphics(families@),
        },
{
    let mut k: u32 = 0;
    while (k as usize) < families.len()
        invariant
            k <= families@.len(),
            forall|j: int| 0 <= j < k ==> !(#[trigger] families@[j]).has_graphics(),
        decreases families@.len() - k,
    {
        if families[k as usize].supports_graphics() {
            return Ok(k);
        }
        if k == u32::MAX {
            return Err(ContextError::NoGraphicsQueueFamily);
        }
        k += 1;
    }
    Err(ContextError::NoGraphicsQueueFamily)
}

/// The adapter and queue family for the logical device: the first compatible
/// adapter, and on it the first queue family with the graphics capability.
/// An adapter without such a family is not passed over for a later one.
pub open spec fn device_choice(adapters: Seq<Adapter>, required: Set<Seq<char>>) -> Result<
    DeviceSelection,
    ContextError,
> {
    if none_compatible(adapters, required) {
        Err(ContextError::NoCompatibleAdapter)
    } else {
        let i = choose|i: int| is_first_compatible(adapters, required, i);
        let families = adapters[i].queue_families@;
        if none_graphics(families) {
            Err(ContextError::NoGraphicsQueueFamily)
        } else {
            let k = choose|k: int| is_first_graphics(families, k);
            Ok(
                DeviceSelection {
                    adapter_index: i as usize,
                    queue_family_index: k as u32,
                    queue_supports_compute: families[k].has_compute(),
                },
            )
        }
    }
}

/// At most one position is that of the first compatible adapter.
pub proof fn lemma_first_compatible_unique(
    adapters: Seq<Adapter>,
    required: Set<Seq<char>>,
    i: int,
    j: int,
)
    requires
        is_first_compatible(adapters, required, i),
        is_first_compatible(adapters, required, j),
    ensures
        i == j,
{
    if i < j {
        assert(!compatible(adapters[i], required));
    }
    if j < i {
        assert(!compatible(adapters[j], required));
    }
}

/// At most one position is that of the first graphics queue family.
pub proof fn lemma_first_graphics_unique(families: Seq<QueueFamily>, k: int, l: int)
    requires
        is_first_graphics(families, k),
        is_first_graphics(families, l),
    ensures
        k == l,
{
    if k < l {
        assert(!families[k].has_graphics());
    }
    if l < k {
        assert(!families[l].has_graphics());
    }
}

/// Chooses the adapter and the queue family for the logical device.
pub fn select_device(adapters: &Vec<Adapter>, required: &DeviceExtensions) -> (r: Result<
    DeviceSelection,
    ContextError,
>)
    ensures
        r == device_choice(adapters@, extension_names(*required)),
        r matches Ok(d) ==> is_first_compatible(adapters@, extension_names(*required), d.adapter_index as int)
            && is_first_graphics(
            adapters@[d.adapter_index as int].queue_families@,
            d.queue_family_index as int,
        ),
{
    match select_adapter(adapters, required) {
        Err(e) => {
            Err(e)
        },
        Ok(i) => {
            proof {
                assert(compatible(adapters@[i as int], extension_names(*required)));
                let c = choose|c: int| is_first_compatible(adapters@, extension_names(*required), c);
                lemma_first_compatible_unique(adapters@, extension_names(*required), i as int, c);
            }
            let families = &adapters[i].queue_families;
            match select_queue_family(families) {
                Err(e) => {
                    Err(e)
                },
                Ok(k) => {
                    proof {
                        assert(families@[k as int].has_graphics());
                        let c = choose|c: int| is_first_graphics(families@, c);
                        lemma_first_graphics_unique(families@, k as int, c);
                    }
                    Ok(
                        DeviceSelection {
                            adapter_index: i,
                            queue_family_index: k,
                            queue_supports_compute: families[k as usize].supports_compute(),
                        },
                    )
                },
            }
        },
    }
}

/// Width and height in pixels.
#[derive(Clone, Copy, Debug, PartialEq, Eq, Structural)]
pub struct Extent {
    pub width: u32,
    pub height: u32,
}

/// What the host learned about the surface once the window was open: the
/// smallest number of images a swapchain may have, the formats with their
/// colour spaces and the blending modes, each in the order reported, and
/// the size of the window at that moment.
#[derive(Debug)]
pub struct SurfaceProbe {
    pub min_image_count: u32,
    pub formats: Vec<(Format, ColorSpace)>,
    pub composite_alpha: Vec<CompositeAlpha>,
    pub window_extent: Extent,
}

/// The parameters the swapchain is created with.
#[derive(Clone, Copy, Debug, PartialEq, Eq)]
pub struct SwapchainConfig {
    pub image_count: u32,
    pub format: (Format, ColorSpace),
    pub extent: Extent,
    pub composite_alpha: CompositeAlpha,
}

/// The swapchain for a surface: one image more than the minimum, the first
/// reported format, the window's size, the first reported blending mode.
/// There is none where the surface reports no format or no blending mode, or
/// where the image count does not fit in 32 bits.
pub open spec fn swapchain_choice(probe: SurfaceProbe) -> Result<SwapchainConfig, ContextError> {
    if probe.formats@.len() == 0 || probe.composite_alpha@.len() == 0 || probe.min_image_count
        == u32::MAX {
        Err(ContextError::SwapchainCreationFailed)
    } else {
        Ok(
            SwapchainConfig {
                image_count: (probe.min_image_count + 1) as u32,
                format: probe.formats@[0],
                extent: probe.window_extent,
                composite_alpha: probe.composite_alpha@[0],
            },
        )
    }
}

/// Chooses the swapchain parameters for a probed surface.
pub fn plan_swapchain(probe: &SurfaceProbe) -> (r: Result<SwapchainConfig, ContextError>)
    ensures
        r == swapchain_choice(*probe),
{
    if probe.formats.len() == 0 || probe.composite_alpha.len() == 0 {
        return Err(ContextError::SwapchainCreationFailed);
    }
    match probe.min_image_count.checked_add(1) {
        None => Err(ContextError::SwapchainCreationFailed),
        Some(image_count) => Ok(
            SwapchainConfig {
                image_count,
                format: probe.formats[0],
                extent: probe.window_extent,
                composite_alpha: probe.composite_alpha[0],
            },
        ),
    }
}

/// The extensions every adapter must offer: presentation to a swapchain.
pub open spec fn required_extensions() -> Set<Seq<char>> {
    Set::<Seq<char>>::empty().insert(khr_swapchain())
}

/// The GPU context once it is complete: the device it was opened on and the
/// swapchain it presents to. Nothing changes it afterwards.
#[derive(Clone, Copy, Debug, PartialEq, Eq)]
pub struct Context {
    pub device: DeviceSelection,
    pub swapchain: SwapchainConfig,
}

/// The context for a machine with these adapters and this surface.
pub open spec fn context_choice(adapters: Seq<Adapter>, probe: SurfaceProbe) -> Result<
    Context,
    ContextError,
> {
    match device_choice(adapters, required_extensions()) {
        Err(e) => Err(e),
        Ok(device) => match swapchain_choice(probe) {
            Err(e) => Err(e),
            Ok(swapchain) => Ok(Context { device, swapchain }),
        },
    }
}

impl Context {
    /// Makes every choice of the construction at once, for a host that has
    /// the adapters and the surface at hand.
    pub fn new(adapters: &Vec<Adapter>, probe: &SurfaceProbe) -> (r: Result<Context, ContextError>)
        ensures
            r == context_choice(adapters@, *probe),
    {
        let required = swapchain_extension();
        match select_device(adapters, &required) {
            Err(e) => Err(e),
            Ok(device) => match plan_swapchain(probe) {
                Err(e) => Err(e),
                Ok(swapchain) => Ok(Context { device, swapchain }),
            },
        }
    }
}

/// What the host reports after serving a request.
#[derive(Debug)]
pub enum Report {
    Adapters(Vec<Adapter>),
    DeviceCreated,
    DeviceFailed,
    SurfaceOpened(SurfaceProbe),
    SurfaceFailed,
    SwapchainCreated,
    SwapchainFailed,
}

/// What the host is asked to do next.
#[derive(Clone, Copy, Debug, PartialEq, Eq)]
pub enum Request {
    EnumerateAdapters,
    CreateDevice(DeviceSelection),
    OpenSurface,
    CreateSwapchain(SwapchainConfig),
    CreateAllocators(Context),
    Abort(ContextError),
}

/// The construction of the context, stage by stage. The window and its
/// surface are asked for only once a device exists, so a machine without a
/// usable adapter never sees a window.
#[derive(Clone, Copy, Debug, PartialEq, Eq)]
pub enum Construction {
    AwaitingAdapters,
    AwaitingDevice(DeviceSelection),
    AwaitingSurface(DeviceSelection),
    AwaitingSwapchain(DeviceSelection, SwapchainConfig),
    Ready(Context),
    Failed(ContextError),
}

impl Construction {
    /// The stage that follows `self` on `report`. A report that does not
    /// answer the pending request changes nothing; `Ready` and `Failed` are
    /// final.
    pub open spec fn next(self, report: Report) -> Construction {
        match (self, report) {
            (Construction::AwaitingAdapters, Report::Adapters(list)) => match device_choice(
                list@,
                required_extensions(),
            ) {
                Ok(device) => Construction::AwaitingDevice(device),
                Err(e) => Construction::Failed(e),
            },
            (Construction::AwaitingDevice(device), Report::DeviceCreated) => {
                Construction::AwaitingSurface(device)
            },
            (Construction::AwaitingDevice(_), Report::DeviceFailed) => Construction::Failed(
                ContextError::DeviceCreationFailed,
            ),
            (Construction::AwaitingSurface(device), Report::SurfaceOpened(probe)) => {
                match swapchain_choice(probe) {
                    Ok(config) => Construction::AwaitingSwapchain(device, config),
                    Err(e) => Construction::Failed(e),
                }
            },
            (Construction::AwaitingSurface(_), Report::SurfaceFailed) => Construction::Failed(
                ContextError::SurfaceCreationFailed,
            ),
            (Construction::AwaitingSwapchain(device, swapchain), Report::SwapchainCreated) => {
                Construction::Ready(Context { device, swapchain })
            },
            (Construction::AwaitingSwapchain(_, _), Report::SwapchainFailed) => {
                Construction::Failed(ContextError::SwapchainCreationFailed)
            },
            (stage, _) => stage,
        }
    }

    /// The request the host has to serve in this stage.
    pub open spec fn pending(self) -> Request {
        match self {
            Construction::AwaitingAdapters => Request::EnumerateAdapters,
            Construction::AwaitingDevice(device) => Request::CreateDevice(device),
            Construction::AwaitingSurface(_) => Request::OpenSurface,
            Construction::AwaitingSwapchain(_, config) => Request::CreateSwapchain(config),
            Construction::Ready(context) => Request::CreateAllocators(context),
            Construction::Failed(e) => Request::Abort(e),
        }
    }

    /// The first stage: nothing is known of the machine yet.
    pub fn begin() -> (stage: Construction)
        ensures
            stage == Construction::AwaitingAdapters,
    {
        Construction::AwaitingAdapters
    }

    /// Takes the host's report and moves to the next stage.
    pub fn advance(self, report: Report) -> (stage: Construction)
        ensures
            stage == self.next(report),
    {
        match self {
            Construction::AwaitingAdapters => match report {
                Report::Adapters(list) => {
                    let required = swapchain_extension();
                    match select_device(&list, &required) {
                        Ok(device) => Construction::AwaitingDevice(device),
                        Err(e) => Construction::Failed(e),
                    }
                },
                _ => self,
            },
            Construction::AwaitingDevice(device) => match report {
                Report::DeviceCreated => Construction::AwaitingSurface(device),
                Report::DeviceFailed => Construction::Failed(ContextError::DeviceCreationFailed),
                _ => self,
            },
            Construction::AwaitingSurface(device) => match report {
                Report::SurfaceOpened(probe) => match plan_swapchain(&probe) {
                    Ok(config) => Construction::AwaitingSwapchain(device, config),
                    Err(e) => Construction::Failed(e),
                },
                Report::SurfaceFailed => Construction::Failed(ContextError::SurfaceCreationFailed),
                _ => self,
            },
            Construction::AwaitingSwapchain(device, swapchain) => match report {
                Report::SwapchainCreated => Construction::Ready(Context { device, swapchain }),
                Report::SwapchainFailed => Construction::Failed(
                    ContextError::SwapchainCreationFailed,
                ),
                _ => self,
            },
            Construction::Ready(_) => self,
            Construction::Failed(_) => self,
        }
    }

    /// The request the host has to serve in this stage.
    pub fn request(&self) -> (r: Request)
        ensures
            r == self.pending(),
    {
        match self {
            Construction::AwaitingAdapters => Request::EnumerateAdapters,
            Construction::AwaitingDevice(device) => Request::CreateDevice(*device),
            Construction::AwaitingSurface(_) => Request::OpenSurface,
            Construction::AwaitingSwapchain(_, config) => Request::CreateSwapchain(*config),
            Construction::Ready(context) => Request::CreateAllocators(*context),
            Construction::Failed(e) => Request::Abort(*e),
        }
    }
}

/// Where some adapter is compatible, the device is opened on the first such
/// adapter or not at all: a failure is then the lack of a graphics queue
/// family on that adapter, never the lack of an adapter.
pub proof fn lemma_first_compatible_adapter_selected(
    adapters: Seq<Adapter>,
    required: Set<Seq<char>>,
    i: int,
)
    requires
        adapters.len() <= usize::MAX,
        is_first_compatible(adapters, required, i),
    ensures
        match device_choice(adapters, required) {
            Ok(device) => device.adapter_index == i && is_first_graphics(
                adapters[i].queue_families@,
                device.queue_family_index as int,
            ),
            Err(e) => e == ContextError::NoGraphicsQueueFamily,
        },
{
    assert(compatible(adapters[i], required));
    let c = choose|c: int| is_first_compatible(adapters, required, c);
    lemma_first_compatible_unique(adapters, required, i, c);
    let families = adapters[i].queue_families@;
    if !none_graphics(families) {
        let w = choose|w: int|
            0 <= w < families.len() && w <= u32::MAX && (#[trigger] families[w]).has_graphics();
        lemma_some_graphics_has_first(families, w);
        let k = choose|k: int| is_first_graphics(families, k);
        assert(k <= w) by {
            if w < k {
                assert(!families[w].has_graphics());
            }
        }
    }
}

/// A list with a graphics queue family at `w` has a first one, at or before `w`.
pub proof fn lemma_some_graphics_has_first(families: Seq<QueueFamily>, w: int)
    requires
        0 <= w < families.len(),
        families[w].has_graphics(),
    ensures
        exists|k: int| is_first_graphics(families, k) && k <= w,
    decreases w,
{
    if exists|j: int| 0 <= j < w && (#[trigger] families[j]).has_graphics() {
        let j = choose|j: int| 0 <= j < w && (#[trigger] families[j]).has_graphics();
        lemma_some_graphics_has_first(families, j);
        let k = choose|k: int| is_first_graphics(families, k) && k <= j;
        assert(is_first_graphics(families, k) && k <= w);
    } else {
        assert(is_first_graphics(families, w));
    }
}

/// On a machine without a compatible adapter the construction fails with
/// `NoCompatibleAdapter` at its first report and asks for no window.
pub proof fn lemma_no_adapter_no_window(list: Vec<Adapter>, probe: SurfaceProbe)
    requires
        none_compatible(list@, required_extensions()),
    ensures
        context_choice(list@, probe) == Err::<Context, ContextError>(
            ContextError::NoCompatibleAdapter,
        ),
        Construction::AwaitingAdapters.next(Report::Adapters(list)) == Construction::Failed(
            ContextError::NoCompatibleAdapter,
        ),
        Construction::AwaitingAdapters.next(Report::Adapters(list)).pending() == Request::Abort(
            ContextError::NoCompatibleAdapter,
        ),
{
}

/// The window is asked for only after the device was created.
pub proof fn lemma_window_follows_device(stage: Construction, report: Report)
    requires
        stage.next(report).pending() == Request::OpenSurface,
    ensures
        stage is AwaitingSurface || (stage is AwaitingDevice && report is DeviceCreated),
{
}

/// A final stage stays as it is, whatever is reported.
pub proof fn lemma_final_stages_absorb(stage: Construction, report: Report)
    requires
        stage is Ready || stage is Failed,
    ensures
        stage.next(report) == stage,
{
}

/// A host on which every creation succeeds ends with the context that
/// `Context::new` builds from the same adapters and surface, or with its error.
pub proof fn lemma_staged_agrees_with_direct(list: Vec<Adapter>, probe: SurfaceProbe)
    ensures
        Construction::AwaitingAdapters.next(Report::Adapters(list)).next(
            Report::DeviceCreated,
        ).next(Report::SurfaceOpened(probe)).next(Report::SwapchainCreated) == (match context_choice(
            list@,
            probe,
        ) {
            Ok(context) => Construction::Ready(context),
            Err(e) => Construction::Failed(e),
        }),
{
}

/// The swapchain has the size the window had when the surface was probed,
/// and one image more than the surface's minimum.
pub proof fn lemma_swapchain_matches_window(probe: SurfaceProbe)
    ensures
        swapchain_choice(probe) matches Ok(config) ==> config.extent == probe.window_extent
            && config.image_count == probe.min_image_count + 1 && config.format
            == probe.formats@[0] && config.composite_alpha == probe.composite_alpha@[0],
{
}

} // verus!
