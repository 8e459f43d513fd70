use bs_rt::context::{
    plan_swapchain, select_adapter, select_device, select_queue_family, Adapter, Construction,
    Context, ContextError, DeviceSelection, Extent, QueueFamily, Report, Request, SurfaceProbe,
    SwapchainConfig,
};
use vulkano::device::{DeviceExtensions, QueueFlags};
use vulkano::format::Format;
use vulkano::swapchain::{ColorSpace, CompositeAlpha};

fn family(graphics: bool, compute: bool) -> QueueFamily {
    let mut flags = QueueFlags::TRANSFER;
    if graphics {
        flags |= QueueFlags::GRAPHICS;
    }
    if compute {
        flags |= QueueFlags::COMPUTE;
    }
    QueueFamily { queue_count: 1, flags }
}

fn swapchain() -> DeviceExtensions {
    DeviceExtensions { khr_swapchain: true, ..DeviceExtensions::empty() }
}

fn swapchain_and_maintenance() -> DeviceExtensions {
    DeviceExtensions { khr_swapchain: true, khr_maintenance1: true, ..DeviceExtensions::empty() }
}

fn maintenance() -> DeviceExtensions {
    DeviceExtensions { khr_maintenance1: true, khr_maintenance2: true, ..DeviceExtensions::empty() }
}

fn adapter(extensions: DeviceExtensions, families: Vec<QueueFamily>) -> Adapter {
    Adapter { extensions, queue_families: families }
}

fn probe() -> SurfaceProbe {
    SurfaceProbe {
        min_image_count: 2,
        formats: vec![
            (Format::B8G8R8A8_UNORM, ColorSpace::SrgbNonLinear),
            (Format::B8G8R8A8_SRGB, ColorSpace::SrgbNonLinear),
        ],
        composite_alpha: vec![CompositeAlpha::PreMultiplied, CompositeAlpha::Opaque],
        window_extent: Extent { width: 800, height: 600 },
    }
}

fn expected_swapchain() -> SwapchainConfig {
    SwapchainConfig {
        image_count: 3,
        format: (Format::B8G8R8A8_UNORM, ColorSpace::SrgbNonLinear),
        extent: Extent { width: 800, height: 600 },
        composite_alpha: CompositeAlpha::PreMultiplied,
    }
}

#[test]
fn queue_family_capabilities_are_read_from_its_flags() {
    let both = QueueFamily { queue_count: 4, flags: QueueFlags::GRAPHICS | QueueFlags::COMPUTE };
    assert!(both.supports_graphics());
    assert!(both.supports_compute());
    let graphics = QueueFamily { queue_count: 1, flags: QueueFlags::GRAPHICS };
    assert!(graphics.supports_graphics());
    assert!(!graphics.supports_compute());
    let compute = QueueFamily {
        queue_count: 1,
        flags: QueueFlags::COMPUTE | QueueFlags::TRANSFER,
    };
    assert!(!compute.supports_graphics());
    assert!(compute.supports_compute());
    let neither = QueueFamily { queue_count: 1, flags: QueueFlags::empty() };
    assert!(!neither.supports_graphics());
    assert!(!neither.supports_compute());
}

#[test]
fn first_compatible_adapter_is_selected() {
    let adapters = vec![
        adapter(maintenance(), vec![family(true, true)]),
        adapter(swapchain_and_maintenance(), vec![family(true, true)]),
        adapter(swapchain(), vec![family(true, true)]),
    ];
    assert_eq!(select_adapter(&adapters, &swapchain()), Ok(1));
    assert_eq!(select_adapter(&adapters, &DeviceExtensions::empty()), Ok(0));
    assert_eq!(select_adapter(&adapters, &maintenance()), Ok(0));
}

#[test]
fn empty_adapter_list_has_no_compatible_adapter() {
    let adapters: Vec<Adapter> = Vec::new();
    assert_eq!(select_adapter(&adapters, &swapchain()), Err(ContextError::NoCompatibleAdapter));
    assert_eq!(
        select_adapter(&adapters, &DeviceExtensions::empty()),
        Err(ContextError::NoCompatibleAdapter)
    );
    assert_eq!(Context::new(&adapters, &probe()), Err(ContextError::NoCompatibleAdapter));
}

#[test]
fn incompatible_adapters_have_no_compatible_adapter() {
    let adapters = vec![
        adapter(DeviceExtensions::empty(), vec![family(true, true)]),
        adapter(maintenance(), vec![family(true, true)]),
    ];
    let required = swapchain();
    assert_eq!(select_adapter(&adapters, &required), Err(ContextError::NoCompatibleAdapter));
    assert_eq!(select_device(&adapters, &required), Err(ContextError::NoCompatibleAdapter));
    assert_eq!(Context::new(&adapters, &probe()), Err(ContextError::NoCompatibleAdapter));
}

#[test]
fn adapter_must_offer_every_required_extension() {
    let adapters = vec![
        adapter(swapchain(), vec![family(true, true)]),
        adapter(maintenance(), vec![family(true, true)]),
        adapter(swapchain_and_maintenance(), vec![family(true, true)]),
    ];
    assert_eq!(select_adapter(&adapters, &swapchain_and_maintenance()), Ok(2));
}

#[test]
fn first_graphics_queue_family_is_selected() {
    let families = vec![family(false, true), family(true, false), family(true, true)];
    assert_eq!(select_queue_family(&families), Ok(1));
    let none = vec![family(false, true), family(false, false)];
    assert_eq!(select_queue_family(&none), Err(ContextError::NoGraphicsQueueFamily));
    assert_eq!(select_queue_family(&Vec::new()), Err(ContextError::NoGraphicsQueueFamily));
}

#[test]
fn device_is_opened_on_first_compatible_adapter_only() {
    let required = swapchain();
    let adapters = vec![
        adapter(DeviceExtensions::empty(), vec![family(true, true)]),
        adapter(swapchain(), vec![family(false, true), family(true, false)]),
        adapter(swapchain(), vec![family(true, true)]),
    ];
    assert_eq!(
        select_device(&adapters, &required),
        Ok(DeviceSelection { adapter_index: 1, queue_family_index: 1, queue_supports_compute: false })
    );
    let lacking = vec![
        adapter(swapchain(), vec![family(false, true)]),
        adapter(swapchain(), vec![family(true, true)]),
    ];
    assert_eq!(select_device(&lacking, &required), Err(ContextError::NoGraphicsQueueFamily));
}

#[test]
fn swapchain_takes_first_options_and_one_more_image() {
    assert_eq!(plan_swapchain(&probe()), Ok(expected_swapchain()));
}

#[test]
fn swapchain_needs_a_format_a_blending_mode_and_a_count() {
    let mut no_format = probe();
    no_format.formats.clear();
    assert_eq!(plan_swapchain(&no_format), Err(ContextError::SwapchainCreationFailed));
    let mut no_alpha = probe();
    no_alpha.composite_alpha.clear();
    assert_eq!(plan_swapchain(&no_alpha), Err(ContextError::SwapchainCreationFailed));
    let mut too_many = probe();
    too_many.min_image_count = u32::MAX;
    assert_eq!(plan_swapchain(&too_many), Err(ContextError::SwapchainCreationFailed));
    let mut most = probe();
    most.min_image_count = u32::MAX - 1;
    assert_eq!(plan_swapchain(&most).map(|c| c.image_count), Ok(u32::MAX));
}

#[test]
fn context_is_built_from_adapters_and_surface() {
    let adapters = vec![
        adapter(maintenance(), vec![family(true, true)]),
        adapter(swapchain_and_maintenance(), vec![family(false, false), family(true, true)]),
    ];
    let expected = Context {
        device: DeviceSelection {
            adapter_index: 1,
            queue_family_index: 1,
            queue_supports_compute: true,
        },
        swapchain: expected_swapchain(),
    };
    assert_eq!(Context::new(&adapters, &probe()), Ok(expected));
    let mut bad = probe();
    bad.formats.clear();
    assert_eq!(Context::new(&adapters, &bad), Err(ContextError::SwapchainCreationFailed));
}

#[test]
fn construction_runs_stage_by_stage() {
    let adapters = || vec![adapter(swapchain(), vec![family(true, true)])];
    let device =
        DeviceSelection { adapter_index: 0, queue_family_index: 0, queue_supports_compute: true };
    let stage = Construction::begin();
    assert_eq!(stage, Construction::AwaitingAdapters);
    assert_eq!(stage.request(), Request::EnumerateAdapters);
    let stage = stage.advance(Report::Adapters(adapters()));
    assert_eq!(stage, Construction::AwaitingDevice(device));
    assert_eq!(stage.request(), Request::CreateDevice(device));
    let stage = stage.advance(Report::DeviceCreated);
    assert_eq!(stage, Construction::AwaitingSurface(device));
    assert_eq!(stage.request(), Request::OpenSurface);
    let stage = stage.advance(Report::SurfaceOpened(probe()));
    assert_eq!(stage, Construction::AwaitingSwapchain(device, expected_swapchain()));
    assert_eq!(stage.request(), Request::CreateSwapchain(expected_swapchain()));
    let stage = stage.advance(Report::SwapchainCreated);
    let context = Context { device, swapchain: expected_swapchain() };
    assert_eq!(stage, Construction::Ready(context));
    assert_eq!(stage.request(), Request::CreateAllocators(context));
    assert_eq!(Context::new(&adapters(), &probe()), Ok(context));
    assert_eq!(stage.advance(Report::SwapchainFailed), Construction::Ready(context));
}

#[test]
fn construction_without_adapter_asks_for_no_window() {
    let stage = Construction::begin().advance(Report::Adapters(Vec::new()));
    assert_eq!(stage, Construction::Failed(ContextError::NoCompatibleAdapter));
    assert_eq!(stage.request(), Request::Abort(ContextError::NoCompatibleAdapter));
    let stage = stage.advance(Report::DeviceCreated);
    assert_eq!(stage, Construction::Failed(ContextError::NoCompatibleAdapter));
    assert_ne!(stage.request(), Request::OpenSurface);
}

#[test]
fn construction_reports_each_failing_stage() {
    let device =
        DeviceSelection { adapter_index: 0, queue_family_index: 0, queue_supports_compute: true };
    let no_graphics = vec![adapter(swapchain(), vec![family(false, true)])];
    assert_eq!(
        Construction::begin().advance(Report::Adapters(no_graphics)),
        Construction::Failed(ContextError::NoGraphicsQueueFamily)
    );
    assert_eq!(
        Construction::AwaitingDevice(device).advance(Report::DeviceFailed),
        Construction::Failed(ContextError::DeviceCreationFailed)
    );
    assert_eq!(
        Construction::AwaitingSurface(device).advance(Report::SurfaceFailed),
        Construction::Failed(ContextError::SurfaceCreationFailed)
    );
    let mut bad = probe();
    bad.composite_alpha.clear();
    assert_eq!(
        Construction::AwaitingSurface(device).advance(Report::SurfaceOpened(bad)),
        Construction::Failed(ContextError::SwapchainCreationFailed)
    );
    assert_eq!(
        Construction::AwaitingSwapchain(device, expected_swapchain())
            .advance(Report::SwapchainFailed),
        Construction::Failed(ContextError::SwapchainCreationFailed)
    );
}

#[test]
fn construction_ignores_reports_out_of_turn() {
    let device =
        DeviceSelection { adapter_index: 0, queue_family_index: 0, queue_supports_compute: true };
    assert_eq!(
        Construction::begin().advance(Report::DeviceCreated),
        Construction::AwaitingAdapters
    );
    assert_eq!(
        Construction::AwaitingDevice(device).advance(Report::SurfaceOpened(probe())),
        Construction::AwaitingDevice(device)
    );
    assert_eq!(
        Construction::AwaitingSurface(device).advance(Report::SwapchainCreated),
        Construction::AwaitingSurface(device)
    );
    assert_eq!(
        Construction::AwaitingSwapchain(device, expected_swapchain())
            .advance(Report::DeviceFailed),
        Construction::AwaitingSwapchain(device, expected_swapchain())
    );
}
