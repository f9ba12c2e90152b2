//! Negotiation between the candidate adapters and the presentation surface:
//! which adapter and queue family to use, and the swapchain configuration that
//! the surface's capabilities allow.

use vstd::prelude::*;
use gfx_hal::format::Format;
use crate::utils::{first_match, lemma_first_match_found, lemma_first_match_none};

verus! {

/// Usage flag of an image that serves as a colour attachment of a render pass.
pub const COLOR_ATTACHMENT: u32 = 0x10;

/// Image count that the low-latency mailbox mode is asked for.
pub const MAILBOX_IMAGES: u32 = 3;

/// Image count that every other presentation mode is asked for.
pub const DEFAULT_IMAGES: u32 = 2;

/// `gfx_hal`'s pixel format. Nothing is known of a format here but what
/// `channel_of` says; it is carried through as it is.
#[verifier::external_type_specification]
#[verifier::external_body]
pub struct ExFormat(gfx_hal::format::Format);

/// How the bits of one channel of a pixel format are read.
#[derive(Clone, Copy, Debug, PartialEq, Eq, Structural)]
pub enum ChannelType {
    Unorm,
    Snorm,
    Uint,
    Sint,
    Ufloat,
    Sfloat,
    Uscaled,
    Sscaled,
    Srgb,
}

/// The channel type that `gfx_hal`'s format table gives for `format`; `None`
/// for the marker that ends the table, which is no format.
pub uninterp spec fn channel_of(format: Format) -> Option<ChannelType>;

/// Calls `gfx_hal::format::Format::base_format` and hands back the channel type
/// of its result. `base_format` looks the format up in a constant table and
/// asserts that it is not the end-of-table marker, so the marker is told apart
/// first. Trusted: the result is a function of the format alone.
#[verifier::external_body]
fn format_channel(format: Format) -> (r: Option<ChannelType>)
    ensures
        r == channel_of(format),
{
    match format {
        Format::__NumFormats => None,
        other => Some(match other.base_format().1 {
            gfx_hal::format::ChannelType::Unorm => ChannelType::Unorm,
            gfx_hal::format::ChannelType::Snorm => ChannelType::Snorm,
            gfx_hal::format::ChannelType::Uint => ChannelType::Uint,
            gfx_hal::format::ChannelType::Sint => ChannelType::Sint,
            gfx_hal::format::ChannelType::Ufloat => ChannelType::Ufloat,
            gfx_hal::format::ChannelType::Sfloat => ChannelType::Sfloat,
            gfx_hal::format::ChannelType::Uscaled => ChannelType::Uscaled,
            gfx_hal::format::ChannelType::Sscaled => ChannelType::Sscaled,
            gfx_hal::format::ChannelType::Srgb => ChannelType::Srgb,
        }),
    }
}

/// `format` stores its colour channels sRGB-encoded.
pub open spec fn is_srgb(format: Format) -> bool {
    channel_of(format) == Some(ChannelType::Srgb)
}

/// How finished images reach the display.
#[derive(Clone, Copy, Debug, PartialEq, Eq, Structural)]
pub enum PresentMode {
    /// Shown at once, tearing allowed.
    Immediate,
    /// A single-entry queue that the newest image replaces: low latency.
    Mailbox,
    /// A queue emptied at each vertical blank.
    Fifo,
    /// As `Fifo`, but a late image is shown at once.
    Relaxed,
}

/// How the presented image is blended with what lies behind the window.
#[derive(Clone, Copy, Debug, PartialEq, Eq, Structural)]
pub enum CompositeAlpha {
    Opaque,
    PreMultiplied,
    PostMultiplied,
    Inherit,
}

/// Width and height in pixels.
#[derive(Clone, Copy, Debug, PartialEq, Eq, Structural)]
pub struct Extent2D {
    pub width: u32,
    pub height: u32,
}

/// What a surface supports on the adapter in use. Asked once, of that
/// adapter alone; never changed.
#[derive(Clone, Debug)]
pub struct SurfaceCapabilities {
    /// Pixel formats that the surface advertises, in its order; `None` where
    /// it advertises no list at all.
    pub formats: Option<Vec<Format>>,
    /// Presentation modes that the surface advertises.
    pub present_modes: Vec<PresentMode>,
    /// Compositing modes that the surface advertises.
    pub composite_alphas: Vec<CompositeAlpha>,
    /// Lower end of the image-count range.
    pub image_count_min: u32,
    /// Upper end of the image-count range.
    pub image_count_max: u32,
    /// Smallest extent that a swapchain may have.
    pub extent_min: Extent2D,
    /// Largest extent that a swapchain may have.
    pub extent_max: Extent2D,
    /// Usage flags that swapchain images support.
    pub usage: u32,
}

/// One queue family of an adapter, as seen from the surface.
#[derive(Clone, Copy, Debug, PartialEq, Eq, Structural)]
pub struct QueueFamily {
    /// Identifier that the adapter gives the family.
    pub id: usize,
    /// The family executes graphics commands.
    pub supports_graphics: bool,
    /// The surface accepts presentation from the family.
    pub supported_by_surface: bool,
}

impl QueueFamily {
    /// The family can both render and present to the surface.
    pub open spec fn suitable(self) -> bool {
        self.supports_graphics && self.supported_by_surface
    }
}

/// A physical device, as seen from the surface.
#[derive(Clone, Debug)]
pub struct Adapter {
    /// The adapter's queue families, in its order.
    pub queue_families: Vec<QueueFamily>,
}

impl Adapter {
    /// Some queue family of the adapter can render and present to the surface.
    pub open spec fn suitable(self) -> bool {
        exists|i: int| 0 <= i < self.queue_families@.len() && (#[trigger] self.queue_families@[i]).suitable()
    }
}

/// What opening the chosen adapter gave.
#[derive(Clone, Copy, Debug, PartialEq, Eq, Structural)]
pub enum DeviceOpening {
    /// The physical device could not be opened.
    Failed,
    /// The device opened, but gave no queue group for the chosen family.
    NoQueueGroup,
    /// The device opened with a queue group of this many command queues.
    Queues(usize),
}

/// The queue family that a device was opened with and the size of its queue
/// group.
#[derive(Clone, Copy, Debug, PartialEq, Eq, Structural)]
pub struct DeviceSelection {
    /// Position of the family among the adapter's queue families.
    pub queue_family: usize,
    /// Number of command queues in the group; never zero.
    pub queue_count: usize,
}

/// Everything that a swapchain is created from.
#[derive(Clone, Copy, Debug)]
pub struct SwapchainConfig {
    pub present_mode: PresentMode,
    pub composite_alpha: CompositeAlpha,
    pub format: Format,
    pub extent: Extent2D,
    pub image_count: u32,
    pub image_layers: u16,
    pub image_usage: u32,
}

/// Why no device or swapchain configuration could be settled on. Each of these
/// ends initialisation.
#[derive(Clone, Copy, Debug, PartialEq, Eq, Structural)]
pub enum NegotiationError {
    /// No adapter has a queue family that renders and presents to the surface.
    NoSuitableAdapter,
    /// The adapter has no queue family that renders and presents to the surface.
    NoSuitableQueueFamily,
    /// The physical device could not be opened.
    DeviceOpenFailed,
    /// The opened device gave no queue group for the chosen family.
    QueueGroupUnavailable,
    /// The queue group holds no command queue.
    NoCommandQueues,
    /// The surface advertises no pixel format.
    NoFormatsAvailable,
    /// None of the preferred presentation modes is advertised.
    NoPresentModeAvailable,
    /// None of the preferred compositing modes is advertised.
    NoCompositeAlphaAvailable,
    /// The window has no client area to take an extent from.
    WindowUnavailable,
    /// Swapchain images cannot serve as colour attachments.
    SurfaceNotColorCapable,
}

/// The smaller of two numbers.
pub open spec fn min_of(a: int, b: int) -> int {
    if a <= b {
        a
    } else {
        b
    }
}

/// The larger of two numbers.
pub open spec fn max_of(a: int, b: int) -> int {
    if a >= b {
        a
    } else {
        b
    }
}

/// `usage` has every bit of `flag` set.
pub open spec fn usage_contains(usage: u32, flag: u32) -> bool {
    usage & flag == flag
}

/// Position of the format to use, given the channel type of each advertised
/// format: the first sRGB one, else the first of all.
pub open spec fn spec_choose_format(channels: Seq<Option<ChannelType>>) -> Option<int> {
    match first_match(channels, |c: Option<ChannelType>| c == Some(ChannelType::Srgb)) {
        Some(i) => Some(i),
        None => if channels.len() > 0 {
            Some(0)
        } else {
            None
        },
    }
}

/// The format to use among those advertised: the first sRGB-encoded one, else
/// the first of all. A surface that advertises no list, or an empty one,
/// offers no format.
pub open spec fn spec_format(formats: Option<Vec<Format>>) -> Result<Format, NegotiationError> {
    match formats {
        None => Err(NegotiationError::NoFormatsAvailable),
        Some(list) => match spec_choose_format(list@.map_values(|f: Format| channel_of(f))) {
            Some(i) => Ok(list@[i]),
            None => Err(NegotiationError::NoFormatsAvailable),
        },
    }
}

/// The first preferred presentation mode that is advertised.
pub open spec fn spec_present_mode(
    advertised: Seq<PresentMode>,
    preferred: Seq<PresentMode>,
) -> Result<PresentMode, NegotiationError> {
    match first_match(preferred, |m: PresentMode| advertised.contains(m)) {
        Some(i) => Ok(preferred[i]),
        None => Err(NegotiationError::NoPresentModeAvailable),
    }
}

/// The first preferred compositing mode that is advertised.
pub open spec fn spec_composite_alpha(
    advertised: Seq<CompositeAlpha>,
    preferred: Seq<CompositeAlpha>,
) -> Result<CompositeAlpha, NegotiationError> {
    match first_match(preferred, |m: CompositeAlpha| advertised.contains(m)) {
        Some(i) => Ok(preferred[i]),
        None => Err(NegotiationError::NoCompositeAlphaAvailable),
    }
}

/// The window's client area, cut down on each axis to the largest extent that
/// the surface supports.
pub open spec fn spec_extent(
    extent_max: Extent2D,
    window_client_area: Option<Extent2D>,
) -> Result<Extent2D, NegotiationError> {
    match window_client_area {
        Some(area) => Ok(
            Extent2D {
                width: min_of(extent_max.width as int, area.width as int) as u32,
                height: min_of(extent_max.height as int, area.height as int) as u32,
            },
        ),
        None => Err(NegotiationError::WindowUnavailable),
    }
}

/// Number of images that `present_mode` is asked for.
pub open spec fn wanted_images(present_mode: PresentMode) -> int {
    if present_mode == PresentMode::Mailbox {
        MAILBOX_IMAGES as int
    } else {
        DEFAULT_IMAGES as int
    }
}

/// Image count policy: three images for the mailbox mode, which buys its low
/// latency with one more buffer, and two for every other mode, which saves the
/// memory; never fewer than the surface's minimum, and never more than one
/// below its maximum.
pub open spec fn spec_image_count(
    image_count_min: int,
    image_count_max: int,
    present_mode: PresentMode,
) -> int {
    min_of(image_count_max - 1, max_of(image_count_min, wanted_images(present_mode)))
}

/// The usage that swapchain images are created with.
pub open spec fn spec_image_usage(usage: u32) -> Result<u32, NegotiationError> {
    if usage_contains(usage, COLOR_ATTACHMENT) {
        Ok(COLOR_ATTACHMENT)
    } else {
        Err(NegotiationError::SurfaceNotColorCapable)
    }
}

/// The swapchain configuration that `caps` allow, or the first failure met when
/// settling, in this order, format, extent, presentation mode, compositing
/// mode and image usage.
pub open spec fn spec_swapchain_config(
    caps: SurfaceCapabilities,
    window_client_area: Option<Extent2D>,
    pm_order: Seq<PresentMode>,
    ca_order: Seq<CompositeAlpha>,
) -> Result<SwapchainConfig, NegotiationError> {
    match spec_format(caps.formats) {
        Err(e) => Err(e),
        Ok(format) => match spec_extent(caps.extent_max, window_client_area) {
            Err(e) => Err(e),
            Ok(extent) => match spec_present_mode(caps.present_modes@, pm_order) {
                Err(e) => Err(e),
                Ok(present_mode) => match spec_composite_alpha(caps.composite_alphas@, ca_order) {
                    Err(e) => Err(e),
                    Ok(composite_alpha) => match spec_image_usage(caps.usage) {
                        Err(e) => Err(e),
                        Ok(image_usage) => Ok(
                            SwapchainConfig {
                                present_mode,
                                composite_alpha,
                                format,
                                extent,
                                image_count: spec_image_count(
                                    caps.image_count_min as int,
                                    caps.image_count_max as int,
                                    present_mode,
                                ) as u32,
                                image_layers: 1,
                                image_usage,
                            },
                        ),
                    },
                },
            },
        },
    }
}

/// Every choice that the swapchain configuration is made of can be settled: a
/// format is advertised, the window is there, a preferred presentation mode and
/// a preferred compositing mode are advertised, and the images can serve as
/// colour attachments.
pub open spec fn swapchain_settled(
    caps: SurfaceCapabilities,
    window_client_area: Option<Extent2D>,
    pm_order: Seq<PresentMode>,
    ca_order: Seq<CompositeAlpha>,
) -> bool {
    &&& caps.formats matches Some(list) && list@.len() > 0
    &&& window_client_area is Some
    &&& spec_present_mode(caps.present_modes@, pm_order) is Ok
    &&& spec_composite_alpha(caps.composite_alphas@, ca_order) is Ok
    &&& spec_image_usage(caps.usage) is Ok
}

/// The outcome of opening `adapter` with its first suitable queue family.
pub open spec fn spec_device(
    adapter: Adapter,
    opening: DeviceOpening,
) -> Result<DeviceSelection, NegotiationError> {
    match first_match(adapter.queue_families@, |f: QueueFamily| f.suitable()) {
        None => Err(NegotiationError::NoSuitableQueueFamily),
        Some(i) => match opening {
            DeviceOpening::Failed => Err(NegotiationError::DeviceOpenFailed),
            DeviceOpening::NoQueueGroup => Err(NegotiationError::QueueGroupUnavailable),
            DeviceOpening::Queues(n) => if n > 0 {
                Ok(DeviceSelection { queue_family: i as usize, queue_count: n })
            } else {
                Err(NegotiationError::NoCommandQueues)
            },
        },
    }
}

fn has_present_mode(modes: &Vec<PresentMode>, mode: PresentMode) -> (r: bool)
    ensures
        r == modes@.contains(mode),
{
    let mut i: usize = 0;
    while i < modes.len()
        invariant
            i <= modes.len(),
            forall|j: int| 0 <= j < i ==> modes@[j] != mode,
        decreases modes.len() - i,
    {
        if modes[i] == mode {
            return true;
        }
        i += 1;
    }
    false
}

fn has_composite_alpha(modes: &Vec<CompositeAlpha>, mode: CompositeAlpha) -> (r: bool)
    ensures
        r == modes@.contains(mode),
{
    let mut i: usize = 0;
    while i < modes.len()
        invariant
            i <= modes.len(),
            forall|j: int| 0 <= j < i ==> modes@[j] != mode,
        decreases modes.len() - i,
    {
        if modes[i] == mode {
            return true;
        }
        i += 1;
    }
    false
}

fn has_suitable_family(adapter: &Adapter) -> (r: bool)
    ensures
        r == adapter.suitable(),
{
    let mut i: usize = 0;
    while i < adapter.queue_families.len()
        invariant
            i <= adapter.queue_families.len(),
            forall|j: int| 0 <= j < i ==> !(#[trigger] adapter.queue_families@[j]).suitable(),
        decreases adapter.queue_families.len() - i,
    {
        let family = adapter.queue_families[i];
        if family.supports_graphics && family.supported_by_surface {
            return true;
        }
        i += 1;
    }
    false
}

/// Position of the format to use, given the channel type of each advertised
/// format in order: that of the first sRGB-encoded format, else the first
/// position; `None` where nothing is advertised.
pub fn choose_format(channels: &Vec<Option<ChannelType>>) -> (r: Option<usize>)
    ensures
        r is Some <==> channels@.len() > 0,
        r matches Some(i) ==> spec_choose_format(channels@) == Some(i as int),
        r is None ==> spec_choose_format(channels@) is None,
{
    let ghost wanted = |c: Option<ChannelType>| c == Some(ChannelType::Srgb);
    let mut i: usize = 0;
    while i < channels.len()
        invariant
            i <= channels.len(),
            wanted == (|c: Option<ChannelType>| c == Some(ChannelType::Srgb)),
            forall|j: int| 0 <= j < i ==> !wanted(#[trigger] channels@[j]),
        decreases channels.len() - i,
    {
        if channels[i] == Some(ChannelType::Srgb) {
            proof {
                lemma_first_match_found(channels@, wanted, i as int);
            }
            return Some(i);
        }
        i += 1;
    }
    proof {
        lemma_first_match_none(channels@, wanted);
    }
    if channels.len() > 0 {
        Some(0)
    } else {
        None
    }
}

/// Namespace of the negotiation functions.
pub struct GfxUtils;

impl GfxUtils {
    /// Position of the first adapter that has a queue family able to render and
    /// to present to the surface.
    pub fn pick_adapter(adapters: &Vec<Adapter>) -> (r: Result<usize, NegotiationError>)
        ensures
            match r {
                Ok(i) => first_match(adapters@, |a: Adapter| a.suitable()) == Some(i as int),
                Err(e) => e == NegotiationError::NoSuitableAdapter && first_match(
                    adapters@,
                    |a: Adapter| a.suitable(),
                ) is None,
            },
    {
        let ghost wanted = |a: Adapter| a.suitable();
        let mut i: usize = 0;
        while i < adapters.len()
            invariant
                i <= adapters.len(),
                wanted == (|a: Adapter| a.suitable()),
                forall|j: int| 0 <= j < i ==> !wanted(#[trigger] adapters@[j]),
            decreases adapters.len() - i,
        {
            if has_suitable_family(&adapters[i]) {
                proof {
                    lemma_first_match_found(adapters@, wanted, i as int);
                }
                return Ok(i);
            }
            i += 1;
        }
        proof {
            lemma_first_match_none(adapters@, wanted);
        }
        Err(NegotiationError::NoSuitableAdapter)
    }

    /// Position of the adapter's first queue family that renders and presents
    /// to the surface.
    pub fn get_queue_family(adapter: &Adapter) -> (r: Result<usize, NegotiationError>)
        ensures
            match r {
                Ok(i) => first_match(adapter.queue_families@, |f: QueueFamily| f.suitable())
                    == Some(i as int),
                Err(e) => e == NegotiationError::NoSuitableQueueFamily && first_match(
                    adapter.queue_families@,
                    |f: QueueFamily| f.suitable(),
                ) is None,
            },
    {
        let ghost wanted = |f: QueueFamily| f.suitable();
        let mut i: usize = 0;
        while i < adapter.queue_families.len()
            invariant
                i <= adapter.queue_families.len(),
                wanted == (|f: QueueFamily| f.suitable()),
                forall|j: int| 0 <= j < i ==> !wanted(#[trigger] adapter.queue_families@[j]),
            decreases adapter.queue_families.len() - i,
        {
            let family = adapter.queue_families[i];
            if family.supports_graphics && family.supported_by_surface {
                proof {
                    lemma_first_match_found(adapter.queue_families@, wanted, i as int);
                }
                return Ok(i);
            }
            i += 1;
        }
        proof {
            lemma_first_match_none(adapter.queue_families@, wanted);
        }
        Err(NegotiationError::NoSuitableQueueFamily)
    }

    /// Judges the opening of `adapter` with its first suitable queue family:
    /// the device must have opened and given a queue group that is not empty.
    pub fn get_device(adapter: &Adapter, opening: DeviceOpening) -> (r: Result<
        DeviceSelection,
        NegotiationError,
    >)
        ensures
            r == spec_device(*adapter, opening),
    {
        match Self::get_queue_family(adapter) {
            Err(e) => Err(e),
            Ok(queue_family) => match opening {
                DeviceOpening::Failed => Err(NegotiationError::DeviceOpenFailed),
                DeviceOpening::NoQueueGroup => Err(NegotiationError::QueueGroupUnavailable),
                DeviceOpening::Queues(queue_count) => if queue_count > 0 {
                    Ok(DeviceSelection { queue_family, queue_count })
                } else {
                    Err(NegotiationError::NoCommandQueues)
                },
            },
        }
    }

    /// The first of `preferred_modes` that the surface advertises.
    pub fn get_present_mode(
        capabilities: &SurfaceCapabilities,
        preferred_modes: &Vec<PresentMode>,
    ) -> (r: Result<
        PresentMode,
        NegotiationError,
    >)
        ensures
            r == spec_present_mode(capabilities.present_modes@, preferred_modes@),
    {
        let ghost advertised = capabilities.present_modes@;
        let ghost wanted = |m: PresentMode| advertised.contains(m);
        let mut i: usize = 0;
        while i < preferred_modes.len()
            invariant
                i <= preferred_modes.len(),
                advertised == capabilities.present_modes@,
                wanted == (|m: PresentMode| advertised.contains(m)),
                forall|j: int| 0 <= j < i ==> !wanted(#[trigger] preferred_modes@[j]),
            decreases preferred_modes.len() - i,
        {
            let mode = preferred_modes[i];
            if has_present_mode(&capabilities.present_modes, mode) {
                proof {
                    lemma_first_match_found(preferred_modes@, wanted, i as int);
                }
                return Ok(mode);
            }
            i += 1;
        }
        proof {
            lemma_first_match_none(preferred_modes@, wanted);
        }
        Err(NegotiationError::NoPresentModeAvailable)
    }

    /// The first of `preferred_modes` that the surface advertises.
    pub fn get_composite_alpha(
        capabilities: &SurfaceCapabilities,
        preferred_modes: &Vec<CompositeAlpha>,
    ) -> (r: Result<CompositeAlpha, NegotiationError>)
        ensures
            r == spec_composite_alpha(capabilities.composite_alphas@, preferred_modes@),
    {
        let ghost advertised = capabilities.composite_alphas@;
        let ghost wanted = |m: CompositeAlpha| advertised.contains(m);
        let mut i: usize = 0;
        while i < preferred_modes.len()
            invariant
                i <= preferred_modes.len(),
                advertised == capabilities.composite_alphas@,
                wanted == (|m: CompositeAlpha| advertised.contains(m)),
                forall|j: int| 0 <= j < i ==> !wanted(#[trigger] preferred_modes@[j]),
            decreases preferred_modes.len() - i,
        {
            let mode = preferred_modes[i];
            if has_composite_alpha(&capabilities.composite_alphas, mode) {
                proof {
                    lemma_first_match_found(preferred_modes@, wanted, i as int);
                }
                return Ok(mode);
            }
            i += 1;
        }
        proof {
            lemma_first_match_none(preferred_modes@, wanted);
        }
        Err(NegotiationError::NoCompositeAlphaAvailable)
    }

    /// The pixel format to use: the first advertised format that is
    /// sRGB-encoded, else the first advertised format. A surface that
    /// advertises no list, or an empty one, offers none.
    pub fn get_format(capabilities: &SurfaceCapabilities) -> (r: Result<Format, NegotiationError>)
        ensures
            r == spec_format(capabilities.formats),
            r is Ok <==> (capabilities.formats matches Some(list) && list@.len() > 0),
    {
        let formats = match &capabilities.formats {
            Some(formats) => formats,
            None => {
                return Err(NegotiationError::NoFormatsAvailable);
            },
        };
        let mut channels: Vec<Option<ChannelType>> = Vec::new();
        let mut i: usize = 0;
        while i < formats.len()
            invariant
                i <= formats.len(),
                channels@ == formats@.take(i as int).map_values(|f: Format| channel_of(f)),
            decreases formats.len() - i,
        {
            channels.push(format_channel(formats[i]));
            proof {
                assert(formats@.take(i + 1) == formats@.take(i as int).push(formats@[i as int]));
                assert(formats@.take(i + 1).map_values(|f: Format| channel_of(f))
                    == formats@.take(i as int).map_values(|f: Format| channel_of(f)).push(
                    channel_of(formats@[i as int]),
                ));
            }
            i += 1;
        }
        assert(formats@.take(i as int) == formats@);
        match choose_format(&channels) {
            Some(position) => Ok(formats[position]),
            None => Err(NegotiationError::NoFormatsAvailable),
        }
    }

    /// The swapchain extent: the window's client area, cut down on each axis to
    /// the surface's largest extent. `None` stands for a window that is gone.
    pub fn get_extent(
        capabilities: &SurfaceCapabilities,
        window_client_area: Option<Extent2D>,
    ) -> (r: Result<
        Extent2D,
        NegotiationError,
    >)
        ensures
            r == spec_extent(capabilities.extent_max, window_client_area),
    {
        match window_client_area {
            Some(area) => {
                let largest = capabilities.extent_max;
                Ok(
                    Extent2D {
                        width: if largest.width <= area.width {
                            largest.width
                        } else {
                            area.width
                        },
                        height: if largest.height <= area.height {
                            largest.height
                        } else {
                            area.height
                        },
                    },
                )
            },
            None => Err(NegotiationError::WindowUnavailable),
        }
    }

    /// Number of swapchain images to ask for under `present_mode`.
    pub fn get_image_count(capabilities: &SurfaceCapabilities, present_mode: PresentMode) -> (r:
        u32)
        requires
            capabilities.image_count_max >= 1,
        ensures
            r == spec_image_count(
                capabilities.image_count_min as int,
                capabilities.image_count_max as int,
                present_mode,
            ),
    {
        let wanted: u32 = if present_mode == PresentMode::Mailbox {
            MAILBOX_IMAGES
        } else {
            DEFAULT_IMAGES
        };
        let floor: u32 = if capabilities.image_count_min >= wanted {
            capabilities.image_count_min
        } else {
            wanted
        };
        let ceiling: u32 = capabilities.image_count_max - 1;
        if ceiling <= floor {
            ceiling
        } else {
            floor
        }
    }

    /// The usage that swapchain images are created with: colour attachment,
    /// which the surface must support.
    pub fn get_image_usage(capabilities: &SurfaceCapabilities) -> (r: Result<
        u32,
        NegotiationError,
    >)
        ensures
            r == spec_image_usage(capabilities.usage),
    {
        if capabilities.usage & COLOR_ATTACHMENT == COLOR_ATTACHMENT {
            Ok(COLOR_ATTACHMENT)
        } else {
            Err(NegotiationError::SurfaceNotColorCapable)
        }
    }

    /// Settles the whole swapchain configuration that the surface allows on the
    /// adapter in use: format, extent, presentation mode, compositing mode,
    /// image usage and image count, with one image layer. The first of these
    /// that cannot be settled is the error. The image count is worked out last,
    /// and only where all else is settled; the upper end of the range must then
    /// be at least 1.
    pub fn get_swapchain(
        capabilities: &SurfaceCapabilities,
        window_client_area: Option<Extent2D>,
        pm_order: &Vec<PresentMode>,
        ca_order: &Vec<CompositeAlpha>,
    ) -> (r: Result<SwapchainConfig, NegotiationError>)
        requires
            swapchain_settled(*capabilities, window_client_area, pm_order@, ca_order@)
                ==> capabilities.image_count_max >= 1,
        ensures
            r == spec_swapchain_config(*capabilities, window_client_area, pm_order@, ca_order@),
            r is Ok <==> swapchain_settled(
                *capabilities,
                window_client_area,
                pm_order@,
                ca_order@,
            ),
    {
        let format = match Self::get_format(capabilities) {
            Ok(format) => format,
            Err(e) => {
                return Err(e);
            },
        };
        let extent = match Self::get_extent(capabilities, window_client_area) {
            Ok(extent) => extent,
            Err(e) => {
                return Err(e);
            },
        };
        let present_mode = match Self::get_present_mode(capabilities, pm_order) {
            Ok(present_mode) => present_mode,
            Err(e) => {
                return Err(e);
            },
        };
        let composite_alpha = match Self::get_composite_alpha(capabilities, ca_order) {
            Ok(composite_alpha) => composite_alpha,
            Err(e) => {
                return Err(e);
            },
        };
        let image_usage = match Self::get_image_usage(capabilities) {
            Ok(image_usage) => image_usage,
            Err(e) => {
                return Err(e);
            },
        };
        let image_count = Self::get_image_count(capabilities, present_mode);
        Ok(
            SwapchainConfig {
                present_mode,
                composite_alpha,
                format,
                extent,
                image_count,
                image_layers: 1,
                image_usage,
            },
        )
    }
}

} // verus!
