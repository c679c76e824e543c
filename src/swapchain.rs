use vstd::prelude::*;

use crate::device::QueueFamilyIndicies;
use crate::error::SetupError;

verus! {

/// Raw value of `VK_FORMAT_B8G8R8A8_SRGB`.
pub const FORMAT_B8G8R8A8_SRGB: i32 = 50;

/// Raw value of `VK_COLOR_SPACE_SRGB_NONLINEAR_KHR`.
pub const COLOR_SPACE_SRGB_NONLINEAR: i32 = 0;

/// Raw value of `VK_PRESENT_MODE_MAILBOX_KHR`: a newer frame replaces the pending one.
pub const PRESENT_MODE_MAILBOX: i32 = 1;

/// Raw value of `VK_PRESENT_MODE_FIFO_KHR`: strict queueing, always supported.
pub const PRESENT_MODE_FIFO: i32 = 2;

/// A pixel format paired with the color space it is presented in.
#[derive(Clone, Copy, Debug, PartialEq, Eq, Structural)]
pub struct SurfaceFormat {
    pub format: i32,
    pub color_space: i32,
}

/// A size in pixels.
#[derive(Clone, Copy, Debug, PartialEq, Eq, Structural)]
pub struct Extent2D {
    pub width: u32,
    pub height: u32,
}

/// What a surface reports about the images it can present.
#[derive(Clone, Copy, Debug, PartialEq, Eq, Structural)]
pub struct SurfaceCapabilities {
    pub min_image_count: u32,
    /// Zero when the surface declares no maximum.
    pub max_image_count: u32,
    /// Width `u32::MAX` marks the extent as undefined.
    pub current_extent: Extent2D,
    pub min_image_extent: Extent2D,
    pub max_image_extent: Extent2D,
    /// Raw transform flags, handed through to swapchain creation.
    pub current_transform: u32,
}

pub open spec fn is_srgb(f: SurfaceFormat) -> bool {
    f.color_space == COLOR_SPACE_SRGB_NONLINEAR
}

pub open spec fn preferred_format() -> SurfaceFormat {
    SurfaceFormat { format: FORMAT_B8G8R8A8_SRGB, color_space: COLOR_SPACE_SRGB_NONLINEAR }
}

/// `i` is the first position of `s` holding an sRGB-nonlinear format.
pub open spec fn is_first_srgb(s: Seq<SurfaceFormat>, i: int) -> bool {
    &&& 0 <= i < s.len()
    &&& is_srgb(s[i])
    &&& forall|j: int| 0 <= j < i ==> !is_srgb(#[trigger] s[j])
}

/// The format to present in: the preferred BGRA8/sRGB pair when offered, else the first
/// sRGB-nonlinear format, else the first format.
pub open spec fn chosen_format(s: Seq<SurfaceFormat>) -> SurfaceFormat {
    if s.contains(preferred_format()) {
        preferred_format()
    } else if exists|i: int| is_first_srgb(s, i) {
        s[choose|i: int| is_first_srgb(s, i)]
    } else {
        s[0]
    }
}

/// Mailbox when offered, else FIFO.
pub open spec fn chosen_present_mode(modes: Seq<i32>) -> i32 {
    if modes.contains(PRESENT_MODE_MAILBOX) {
        PRESENT_MODE_MAILBOX
    } else {
        PRESENT_MODE_FIFO
    }
}

pub open spec fn clamp(x: u32, lo: u32, hi: u32) -> u32 {
    if x < lo {
        lo
    } else if x > hi {
        hi
    } else {
        x
    }
}

pub open spec fn extent_is_undefined(caps: SurfaceCapabilities) -> bool {
    caps.current_extent.width == u32::MAX
}

/// The surface's current extent, or the window size clamped to the surface's bounds when
/// the current extent is undefined.
pub open spec fn chosen_extent(caps: SurfaceCapabilities, window: Extent2D) -> Extent2D {
    if extent_is_undefined(caps) {
        Extent2D {
            width: clamp(window.width, caps.min_image_extent.width, caps.max_image_extent.width),
            height: clamp(
                window.height,
                caps.min_image_extent.height,
                caps.max_image_extent.height,
            ),
        }
    } else {
        caps.current_extent
    }
}

/// One more image than the minimum, capped by the maximum when one is declared.
pub open spec fn chosen_image_count(caps: SurfaceCapabilities) -> int {
    if caps.max_image_count == 0 {
        caps.min_image_count + 1
    } else if caps.min_image_count + 1 <= caps.max_image_count {
        caps.min_image_count + 1
    } else {
        caps.max_image_count as int
    }
}

/// Format selection depends on the offered list alone: equal lists give equal choices,
/// the choice is one of the offered formats, and it is the preferred BGRA8/sRGB pair
/// whenever that pair is offered.
pub proof fn lemma_format_choice_is_pure(a: Seq<SurfaceFormat>, b: Seq<SurfaceFormat>)
    requires
        a.len() > 0,
        a == b,
    ensures
        chosen_format(a) == chosen_format(b),
        a.contains(chosen_format(a)),
        a.contains(preferred_format()) ==> chosen_format(a) == preferred_format(),
{
    if !a.contains(preferred_format()) {
        if exists|i: int| is_first_srgb(a, i) {
            let i = choose|i: int| is_first_srgb(a, i);
            assert(a[i] == chosen_format(a));
        } else {
            assert(a[0] == chosen_format(a));
        }
    }
}

/// When the surface leaves its extent undefined and declares ordered bounds, the chosen
/// extent lies within those bounds, and a window size already within them is kept.
pub proof fn lemma_extent_within_bounds(caps: SurfaceCapabilities, window: Extent2D)
    requires
        extent_is_undefined(caps),
        caps.min_image_extent.width <= caps.max_image_extent.width,
        caps.min_image_extent.height <= caps.max_image_extent.height,
    ensures
        caps.min_image_extent.width <= chosen_extent(caps, window).width
            <= caps.max_image_extent.width,
        caps.min_image_extent.height <= chosen_extent(caps, window).height
            <= caps.max_image_extent.height,
        caps.min_image_extent.width <= window.width <= caps.max_image_extent.width
            && caps.min_image_extent.height <= window.height <= caps.max_image_extent.height
            ==> chosen_extent(caps, window) == window,
{
}

/// With a declared maximum no smaller than the minimum, the image count lies between the
/// two; with no maximum it exceeds the minimum by one.
pub proof fn lemma_image_count_within_bounds(caps: SurfaceCapabilities)
    requires
        caps.max_image_count == 0 || caps.min_image_count <= caps.max_image_count,
    ensures
        caps.max_image_count != 0 ==> caps.min_image_count <= chosen_image_count(caps)
            <= caps.max_image_count,
        caps.max_image_count == 0 ==> chosen_image_count(caps) == caps.min_image_count + 1,
{
}

/// Without mailbox support the present mode falls back to FIFO; with it, mailbox is used.
pub proof fn lemma_present_mode_fallback(modes: Seq<i32>)
    ensures
        !modes.contains(PRESENT_MODE_MAILBOX) ==> chosen_present_mode(modes) == PRESENT_MODE_FIFO,
        modes.contains(PRESENT_MODE_MAILBOX) ==> chosen_present_mode(modes)
            == PRESENT_MODE_MAILBOX,
{
}

/// The choices a surface offers a swapchain.
pub struct SwapChainSupportDetails {
    capabilities: SurfaceCapabilities,
    formats: Vec<SurfaceFormat>,
    present_modes: Vec<i32>,
}

fn clamp_u32(x: u32, lo: u32, hi: u32) -> (r: u32)
    ensures
        r == clamp(x, lo, hi),
{
    if x < lo {
        lo
    } else if x > hi {
        hi
    } else {
        x
    }
}

impl SwapChainSupportDetails {
    pub fn new(
        capabilities: SurfaceCapabilities,
        formats: Vec<SurfaceFormat>,
        present_modes: Vec<i32>,
    ) -> (r: Self)
        ensures
            r.caps() == capabilities,
            r.formats() == formats@,
            r.present_modes() == present_modes@,
    {
        SwapChainSupportDetails { capabilities, formats, present_modes }
    }

    pub closed spec fn caps(&self) -> SurfaceCapabilities {
        self.capabilities
    }

    pub fn capabilities(&self) -> (r: SurfaceCapabilities)
        ensures
            r == self.caps(),
    {
        self.capabilities
    }

    pub closed spec fn formats(&self) -> Seq<SurfaceFormat> {
        self.formats@
    }

    pub closed spec fn present_modes(&self) -> Seq<i32> {
        self.present_modes@
    }

    /// The surface offers at least one format and one present mode.
    pub open spec fn spec_supports_swapchain(&self) -> bool {
        self.formats().len() > 0 && self.present_modes().len() > 0
    }

    pub fn supports_swapchain(&self) -> (r: bool)
        ensures
            r == self.spec_supports_swapchain(),
    {
        self.formats.len() > 0 && self.present_modes.len() > 0
    }

    pub fn supports_formats(&self) -> (r: bool)
        ensures
            r == (self.formats().len() > 0),
    {
        self.formats.len() > 0
    }

    /// Picks the preferred surface format among those offered.
    pub fn choose_swap_surface_format(&self) -> (r: SurfaceFormat)
        requires
            self.formats().len() > 0,
        ensures
            r == chosen_format(self.formats()),
    {
        let ghost s = self.formats@;
        let mut first_srgb: Option<usize> = None;
        let mut i: usize = 0;
        while i < self.formats.len()
            invariant
                s == self.formats@,
                i <= s.len(),
                forall|j: int| 0 <= j < i ==> s[j] != preferred_format(),
                match first_srgb {
                    Some(k) => k < i && is_first_srgb(s, k as int),
                    None => forall|j: int| 0 <= j < i ==> !is_srgb(#[trigger] s[j]),
                },
            decreases s.len() - i,
        {
            let f = self.formats[i];
            if f.format == FORMAT_B8G8R8A8_SRGB && f.color_space == COLOR_SPACE_SRGB_NONLINEAR {
                assert(s[i as int] == preferred_format());
                return f;
            }
            if f.color_space == COLOR_SPACE_SRGB_NONLINEAR && first_srgb.is_none() {
                first_srgb = Some(i);
            }
            i = i + 1;
        }
        assert(!s.contains(preferred_format()));
        match first_srgb {
            Some(k) => {
                let ghost c = choose|c: int| is_first_srgb(s, c);
                assert(c == k) by {
                    if c < k {
                        assert(!is_srgb(s[c]));
                    } else if k < c {
                        assert(!is_srgb(s[k as int]));
                    }
                }
                self.formats[k]
            },
            None => {
                assert(!exists|c: int| is_first_srgb(s, c));
                self.formats[0]
            },
        }
    }

    /// Picks mailbox presentation when offered, FIFO otherwise.
    pub fn choose_swap_present_mode(&self) -> (r: i32)
        ensures
            r == chosen_present_mode(self.present_modes()),
    {
        let ghost s = self.present_modes@;
        let mut i: usize = 0;
        while i < self.present_modes.len()
            invariant
                s == self.present_modes@,
                i <= s.len(),
                forall|j: int| 0 <= j < i ==> s[j] != PRESENT_MODE_MAILBOX,
            decreases s.len() - i,
        {
            if self.present_modes[i] == PRESENT_MODE_MAILBOX {
                assert(s.contains(PRESENT_MODE_MAILBOX));
                return PRESENT_MODE_MAILBOX;
            }
            i = i + 1;
        }
        PRESENT_MODE_FIFO
    }

    /// The extent, in pixels, of the images to draw, given the window's framebuffer size.
    pub fn choose_swap_extent(&self, window_size: Extent2D) -> (r: Extent2D)
        ensures
            r == chosen_extent(self.caps(), window_size),
    {
        let caps = self.capabilities;
        if caps.current_extent.width == u32::MAX {
            Extent2D {
                width: clamp_u32(
                    window_size.width,
                    caps.min_image_extent.width,
                    caps.max_image_extent.width,
                ),
                height: clamp_u32(
                    window_size.height,
                    caps.min_image_extent.height,
                    caps.max_image_extent.height,
                ),
            }
        } else {
            caps.current_extent
        }
    }

    /// How many images the swapchain should hold.
    pub fn get_image_count(&self) -> (r: u32)
        requires
            self.caps().max_image_count != 0 || self.caps().min_image_count < u32::MAX,
        ensures
            r == chosen_image_count(self.caps()),
    {
        let min = self.capabilities.min_image_count;
        let max = self.capabilities.max_image_count;
        if max == 0 {
            min + 1
        } else if min < max {
            min + 1
        } else {
            max
        }
    }
}

/// A surface can carry a swapchain: it offers a format, and its image count can be computed.
pub open spec fn surface_is_usable(details: SwapChainSupportDetails) -> bool {
    &&& details.formats().len() > 0
    &&& (details.caps().max_image_count != 0 || details.caps().min_image_count < u32::MAX)
}

/// The queue families that share the swapchain images: none when a single family both
/// draws and presents, else both.
pub open spec fn sharing_families(families: QueueFamilyIndicies) -> Seq<usize> {
    let g = families.graphics_family.unwrap();
    let p = families.present_family.unwrap();
    if g == p {
        Seq::empty()
    } else {
        seq![g, p]
    }
}

/// Everything negotiated for creating a swapchain.
pub struct SwapchainPlan {
    pub image_count: u32,
    pub surface_format: SurfaceFormat,
    pub present_mode: i32,
    pub extent: Extent2D,
    pub pre_transform: u32,
    /// Families that use the images concurrently; empty for exclusive use by one family.
    pub concurrent_families: Vec<usize>,
}

/// Negotiates the swapchain's image count, format, present mode, extent and sharing.
pub fn plan_swapchain(
    details: &SwapChainSupportDetails,
    families: &QueueFamilyIndicies,
    window_size: Extent2D,
) -> (r: Result<SwapchainPlan, SetupError>)
    ensures
        match r {
            Ok(plan) => {
                &&& families.spec_is_complete()
                &&& surface_is_usable(*details)
                &&& plan.image_count == chosen_image_count(details.caps())
                &&& plan.surface_format == chosen_format(details.formats())
                &&& plan.present_mode == chosen_present_mode(details.present_modes())
                &&& plan.extent == chosen_extent(details.caps(), window_size)
                &&& plan.pre_transform == details.caps().current_transform
                &&& plan.concurrent_families@ == sharing_families(*families)
            },
            Err(e) => {
                &&& families.graphics_family.is_none() ==> e == SetupError::NoGraphicsQueue
                &&& families.graphics_family.is_some() && families.present_family.is_none()
                    ==> e == SetupError::NoPresentQueue
                &&& families.spec_is_complete() ==> e == SetupError::UnsupportedSurface
                    && !surface_is_usable(*details)
            },
        },
{
    let (g, p) = match families.require_complete() {
        Ok(pair) => pair,
        Err(e) => {
            return Err(e);
        },
    };
    let caps = details.capabilities();
    if !details.supports_formats() || (caps.max_image_count == 0 && caps.min_image_count
        == u32::MAX) {
        return Err(SetupError::UnsupportedSurface);
    }
    let mut concurrent_families: Vec<usize> = Vec::new();
    if g != p {
        concurrent_families.push(g);
        concurrent_families.push(p);
    }
    assert(concurrent_families@ =~= sharing_families(*families));
    Ok(
        SwapchainPlan {
            image_count: details.get_image_count(),
            surface_format: details.choose_swap_surface_format(),
            present_mode: details.choose_swap_present_mode(),
            extent: details.choose_swap_extent(window_size),
            pre_transform: caps.current_transform,
            concurrent_families,
        },
    )
}

} // verus!
