//! Resolution of a surface descriptor and of the drawable size.

use vstd::prelude::*;

verus! {

/// Width and height reported for a surface whose size the swapchain decides.
pub const UNDEFINED_EXTENT: u32 = 0xFFFF_FFFF;

/// Fewest buffers a swapchain is built with.
pub const MIN_BUFFER_COUNT: u32 = 2;

/// Bit of `SurfaceCapabilities::supported_composite_alpha` for opaque composition.
pub const COMPOSITE_OPAQUE_BIT: u32 = 0x1;

/// Bit of `SurfaceCapabilities::supported_composite_alpha` for pre-multiplied alpha.
pub const COMPOSITE_PRE_MULTIPLIED_BIT: u32 = 0x2;

/// Bit of `SurfaceCapabilities::supported_composite_alpha` for post-multiplied alpha.
pub const COMPOSITE_POST_MULTIPLIED_BIT: u32 = 0x4;

/// Bit of `SurfaceCapabilities::supported_composite_alpha` for inherited composition.
pub const COMPOSITE_INHERIT_BIT: u32 = 0x8;

/// A two-dimensional size in pixels.
#[derive(Clone, Copy, Debug, PartialEq, Eq, Structural)]
pub struct Extent2D {
    pub width: u32,
    pub height: u32,
}

/// The components that a pixel format stores, whatever their order in memory.
#[derive(Clone, Copy, Debug, PartialEq, Eq, Structural)]
pub enum ComponentLayout {
    R,
    RG,
    RGB,
    RGBA,
    Depth,
    Stencil,
    DepthStencil,
}

/// How the bits of one component are read.
#[derive(Clone, Copy, Debug, PartialEq, Eq, Structural)]
pub enum ElementType {
    UNorm,
    SNorm,
    UScaled,
    SScaled,
    UInt,
    SInt,
    SFloat,
    SRGB,
}

/// A pixel format offered by a surface: the backend's code for it and what the
/// selection reads of it.
#[derive(Clone, Copy, Debug, PartialEq, Eq, Structural)]
pub struct SurfaceFormat {
    pub code: u32,
    pub bits: u32,
    pub components: ComponentLayout,
    pub element: ElementType,
}

/// How a presented image is presented.
#[derive(Clone, Copy, Debug, PartialEq, Eq, Structural)]
pub enum PresentMode {
    Immediate,
    Mailbox,
    Fifo,
    FifoRelaxed,
}

/// How a presented image is composed with what lies behind the window.
#[derive(Clone, Copy, Debug, PartialEq, Eq, Structural)]
pub enum CompositeAlpha {
    Opaque,
    PreMultiplied,
    PostMultiplied,
    Inherit,
}

/// What the platform reports of a surface.
#[derive(Clone, Copy, Debug, PartialEq, Eq, Structural)]
pub struct SurfaceCapabilities {
    pub min_image_count: u32,
    pub current_extent: Extent2D,
    /// A set of the `COMPOSITE_*_BIT` flags.
    pub supported_composite_alpha: u32,
}

/// The resolved, immutable configuration of one surface.
#[derive(Clone, Copy, Debug, PartialEq, Eq, Structural)]
pub struct SurfaceDescriptor {
    pub format: SurfaceFormat,
    pub present_mode: PresentMode,
    pub composite_mode: CompositeAlpha,
    pub buffer_count: u32,
}

/// A setup failure that ends startup.
#[derive(Clone, Copy, Debug, PartialEq, Eq, Structural)]
pub enum SetupError {
    /// The platform cannot present from the chosen queue family.
    PresentationUnsupported,
    /// No offered format is a 32-bit unsigned-normalised RGBA format.
    NoSuitableFormat,
    /// The surface offers no present mode.
    NoPresentMode,
}

/// Whether the format stores 32 bits of unsigned-normalised RGBA.
pub open spec fn is_rgba32_unorm(f: SurfaceFormat) -> bool {
    f.bits == 32 && f.components == ComponentLayout::RGBA && f.element == ElementType::UNorm
}

/// Whether `i` is the index of the first suitable format of `formats`.
pub open spec fn is_first_suitable(formats: Seq<SurfaceFormat>, i: int) -> bool {
    &&& 0 <= i < formats.len()
    &&& is_rgba32_unorm(formats[i])
    &&& forall|j: int| 0 <= j < i ==> !is_rgba32_unorm(#[trigger] formats[j])
}

/// Whether some format of `formats` is suitable.
pub open spec fn has_suitable(formats: Seq<SurfaceFormat>) -> bool {
    exists|i: int| 0 <= i < formats.len() && is_rgba32_unorm(#[trigger] formats[i])
}

/// Post-multiplied alpha where the surface supports it, else opaque composition.
pub open spec fn composite_for(supported: u32) -> CompositeAlpha {
    if supported & COMPOSITE_POST_MULTIPLIED_BIT != 0 {
        CompositeAlpha::PostMultiplied
    } else {
        CompositeAlpha::Opaque
    }
}

/// The larger of the platform's minimum and two.
pub open spec fn buffer_count_for(min_image_count: u32) -> u32 {
    if min_image_count > MIN_BUFFER_COUNT {
        min_image_count
    } else {
        MIN_BUFFER_COUNT
    }
}

/// Whether an extent is the sentinel for a size that the swapchain decides.
pub open spec fn is_undefined_extent(e: Extent2D) -> bool {
    e.width == UNDEFINED_EXTENT && e.height == UNDEFINED_EXTENT
}

/// The drawable size: the logical size where the surface reports the sentinel,
/// else the reported size; none where either dimension is zero.
pub open spec fn drawable_extent(current: Extent2D, logical: Extent2D) -> Option<Extent2D> {
    let e = if is_undefined_extent(current) {
        logical
    } else {
        current
    };
    if e.width == 0 || e.height == 0 {
        None
    } else {
        Some(e)
    }
}

impl SurfaceFormat {
    /// Whether the format stores 32 bits of unsigned-normalised RGBA.
    pub fn is_rgba32_unorm(&self) -> (r: bool)
        ensures
            r == is_rgba32_unorm(*self),
    {
        self.bits == 32 && self.components == ComponentLayout::RGBA && self.element
            == ElementType::UNorm
    }
}

/// The index of the first suitable format, if any.
pub fn find_format(formats: &Vec<SurfaceFormat>) -> (r: Option<usize>)
    ensures
        r matches Some(i) ==> is_first_suitable(formats@, i as int),
        r is None <==> !has_suitable(formats@),
{
    let mut i: usize = 0;
    while i < formats.len()
        invariant
            0 <= i <= formats@.len(),
            forall|j: int| 0 <= j < i ==> !is_rgba32_unorm(#[trigger] formats@[j]),
        decreases formats.len() - i,
    {
        if formats[i].is_rgba32_unorm() {
            return Some(i);
        }
        i = i + 1;
    }
    None
}

/// Post-multiplied alpha where `supported` holds its flag, else opaque composition.
pub fn select_composite_alpha(supported: u32) -> (r: CompositeAlpha)
    ensures
        r == composite_for(supported),
{
    if supported & COMPOSITE_POST_MULTIPLIED_BIT != 0 {
        CompositeAlpha::PostMultiplied
    } else {
        CompositeAlpha::Opaque
    }
}

/// The number of buffers to build a swapchain with: the platform's minimum, and at least two.
pub fn select_buffer_count(min_image_count: u32) -> (r: u32)
    ensures
        r == buffer_count_for(min_image_count),
        r >= MIN_BUFFER_COUNT,
        r >= min_image_count,
{
    if min_image_count > MIN_BUFFER_COUNT {
        min_image_count
    } else {
        MIN_BUFFER_COUNT
    }
}

/// The size to build render targets with, or none for a zero-sized drawable area.
pub fn resolve_drawable_extent(current: Extent2D, logical: Extent2D) -> (r: Option<Extent2D>)
    ensures
        r == drawable_extent(current, logical),
{
    let e = if current.width == UNDEFINED_EXTENT && current.height == UNDEFINED_EXTENT {
        logical
    } else {
        current
    };
    if e.width == 0 || e.height == 0 {
        None
    } else {
        Some(e)
    }
}

impl SurfaceDescriptor {
    /// Resolves the configuration of a surface from what the platform reports of it:
    /// the first suitable format, the first present mode, post-multiplied alpha where
    /// supported, and at least two buffers.
    pub fn resolve(
        presentation_supported: bool,
        caps: &SurfaceCapabilities,
        formats: &Vec<SurfaceFormat>,
        present_modes: &Vec<PresentMode>,
    ) -> (r: Result<SurfaceDescriptor, SetupError>)
        ensures
            !presentation_supported ==> r == Err::<SurfaceDescriptor, SetupError>(
                SetupError::PresentationUnsupported,
            ),
            presentation_supported && !has_suitable(formats@) ==> r == Err::<
                SurfaceDescriptor,
                SetupError,
            >(SetupError::NoSuitableFormat),
            presentation_supported && has_suitable(formats@) && present_modes@.len() == 0 ==> r
                == Err::<SurfaceDescriptor, SetupError>(SetupError::NoPresentMode),
            r is Ok <==> presentation_supported && has_suitable(formats@) && present_modes@.len()
                > 0,
            r matches Ok(d) ==> {
                &&& exists|i: int| is_first_suitable(formats@, i) && d.format == formats@[i]
                &&& d.present_mode == present_modes@[0]
                &&& d.composite_mode == composite_for(caps.supported_composite_alpha)
                &&& d.buffer_count == buffer_count_for(caps.min_image_count)
            },
    {
        if !presentation_supported {
            return Err(SetupError::PresentationUnsupported);
        }
        let format = match find_format(formats) {
            Some(i) => formats[i],
            None => {
                return Err(SetupError::NoSuitableFormat);
            },
        };
        if present_modes.len() == 0 {
            return Err(SetupError::NoPresentMode);
        }
        Ok(SurfaceDescriptor {
            format,
            present_mode: present_modes[0],
            composite_mode: select_composite_alpha(caps.supported_composite_alpha),
            buffer_count: select_buffer_count(caps.min_image_count),
        })
    }
}

} // verus!
