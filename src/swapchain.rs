//! The swapchain and the framebuffer set derived from it, each tagged with
//! the generation of the swapchain, and the configuration a swapchain is
//! created with.
use gfx_hal::format::Format;
use gfx_hal::image::Usage;
use gfx_hal::window::{CompositeAlphaMode, Extent2D, PresentMode, SurfaceCapabilities};
use vstd::prelude::*;

verus! {

#[verifier::external_type_specification]
pub struct ExExtent2D(Extent2D);

/// Presentation mode flag: replace a queued image with a newer one.
pub const PRESENT_MAILBOX: u32 = 0x2;

/// Presentation mode flag: a first-in first-out queue of images.
pub const PRESENT_FIFO: u32 = 0x4;

/// Composite alpha flag: alpha is ignored and the image treated as opaque.
pub const ALPHA_OPAQUE: u32 = 0x1;

/// Composite alpha flag: the window system decides.
pub const ALPHA_INHERIT: u32 = 0x8;

/// What the surface reports it can do, in plain values. The flag fields are
/// bit sets of gfx-hal's image usage, presentation mode and composite alpha
/// flags.
#[derive(Clone, Copy, Debug)]
pub struct SurfaceCaps {
    pub min_image_count: u32,
    pub max_image_count: u32,
    pub current_extent: Option<Extent2D>,
    pub min_extent: Extent2D,
    pub max_extent: Extent2D,
    pub max_image_layers: u16,
    pub usage: u32,
    pub present_modes: u32,
    pub composite_alpha_modes: u32,
}

/// The configuration a swapchain is created with.
#[derive(Clone, Copy, Debug)]
pub struct SwapchainConfig {
    pub present_mode: u32,
    pub composite_alpha_mode: u32,
    pub image_count: u32,
    pub extent: Extent2D,
}

/// The width asked for where the surface does not fix the extent.
pub const DEFAULT_WIDTH: u32 = 768;

/// The height asked for where the surface does not fix the extent.
pub const DEFAULT_HEIGHT: u32 = 1024;

pub open spec fn min_u32(a: u32, b: u32) -> u32 {
    if a <= b { a } else { b }
}

pub open spec fn max_u32(a: u32, b: u32) -> u32 {
    if a >= b { a } else { b }
}

/// The surface's current extent, or else `default` clamped into the range of
/// supported extents.
pub open spec fn clamped_extent(caps: SurfaceCaps, default: Extent2D) -> Extent2D {
    match caps.current_extent {
        Some(e) => e,
        None => Extent2D {
            width: min_u32(caps.max_extent.width, max_u32(default.width, caps.min_extent.width)),
            height: min_u32(caps.max_extent.height, max_u32(default.height, caps.min_extent.height)),
        },
    }
}

/// The surface supports a presentation mode and a composite alpha mode that
/// a configuration can be made with.
pub open spec fn caps_usable(caps: SurfaceCaps) -> bool {
    &&& caps.present_modes & (PRESENT_MAILBOX | PRESENT_FIFO) != 0
    &&& caps.composite_alpha_modes & (ALPHA_INHERIT | ALPHA_OPAQUE) != 0
}

/// The configuration made from `caps`: mailbox presentation where supported,
/// else first-in first-out; inherited alpha where supported, else opaque;
/// three images, clamped into the supported range; and the clamped extent.
pub open spec fn config_for(caps: SurfaceCaps, default: Extent2D) -> SwapchainConfig {
    SwapchainConfig {
        present_mode: if caps.present_modes & PRESENT_MAILBOX != 0 {
            PRESENT_MAILBOX
        } else {
            PRESENT_FIFO
        },
        composite_alpha_mode: if caps.composite_alpha_modes & ALPHA_INHERIT != 0 {
            ALPHA_INHERIT
        } else {
            ALPHA_OPAQUE
        },
        image_count: min_u32(max_u32(3, caps.min_image_count), caps.max_image_count),
        extent: clamped_extent(caps, default),
    }
}

/// Relies on `gfx_hal::window::SwapchainConfig::from_caps`, which picks the
/// presentation mode, the composite alpha mode, the image count (three,
/// clamped to the supported range) and the extent as `config_for` states,
/// and panics where neither mode of a pair is supported.
#[verifier::external_body]
fn config_from_caps(caps: &SurfaceCaps, format: Format, default: Extent2D) -> (r: SwapchainConfig)
    requires
        caps_usable(*caps),
    ensures
        r == config_for(*caps, default),
{
    let hal_caps = SurfaceCapabilities {
        image_count: caps.min_image_count..=caps.max_image_count,
        current_extent: caps.current_extent,
        extents: caps.min_extent..=caps.max_extent,
        max_image_layers: caps.max_image_layers,
        usage: Usage::from_bits_truncate(caps.usage),
        present_modes: PresentMode::from_bits_truncate(caps.present_modes),
        composite_alpha_modes: CompositeAlphaMode::from_bits_truncate(caps.composite_alpha_modes),
    };
    let c = gfx_hal::window::SwapchainConfig::from_caps(&hal_caps, format, default);
    let (present_mode, composite_alpha_mode) = (c.present_mode.bits(), c.composite_alpha_mode.bits());
    SwapchainConfig { present_mode, composite_alpha_mode, image_count: c.image_count, extent: c.extent }
}

/// The extent asked for where the surface does not fix one.
pub open spec fn default_extent() -> Extent2D {
    Extent2D { width: DEFAULT_WIDTH, height: DEFAULT_HEIGHT }
}

/// The configuration to create a swapchain with, from freshly queried
/// surface capabilities; `None` where the surface supports none of the
/// presentation modes or none of the composite alpha modes used.
pub fn swapchain_config(caps: &SurfaceCaps, format: Format) -> (r: Option<SwapchainConfig>)
    ensures
        caps_usable(*caps) ==> r == Some(config_for(*caps, default_extent())),
        !caps_usable(*caps) ==> r is None,
{
    let presentable = caps.present_modes & (PRESENT_MAILBOX | PRESENT_FIFO) != 0;
    let composable = caps.composite_alpha_modes & (ALPHA_INHERIT | ALPHA_OPAQUE) != 0;
    if !presentable || !composable {
        return None;
    }
    Some(config_from_caps(caps, format, Extent2D { width: DEFAULT_WIDTH, height: DEFAULT_HEIGHT }))
}

/// A swapchain handle, its images, the extent it was created with and its
/// generation, which counts rebuilds.
pub struct SwapchainState<S, I> {
    pub swapchain: Option<S>,
    pub back_buffer: Option<Vec<I>>,
    pub extent: Extent2D,
    pub generation: u64,
}

/// The number of images of a swapchain state; none once it is destroyed.
pub open spec fn image_count_of<S, I>(s: SwapchainState<S, I>) -> nat {
    match s.back_buffer {
        Some(v) => v@.len(),
        None => 0,
    }
}

impl<S, I> SwapchainState<S, I> {
    /// The state of a swapchain just created with `images`: generation 0.
    pub fn new(swapchain: S, images: Vec<I>, extent: Extent2D) -> (r: Self)
        ensures
            r.swapchain == Some(swapchain),
            r.back_buffer == Some(images),
            r.extent == extent,
            r.generation == 0,
    {
        SwapchainState { swapchain: Some(swapchain), back_buffer: Some(images), extent, generation: 0 }
    }

    /// Whether there is a swapchain to draw with.
    pub fn is_valid(&self) -> (r: bool)
        ensures
            r == self.swapchain is Some,
    {
        self.swapchain.is_some()
    }

    /// The number of images of the swapchain; 0 once it is destroyed.
    pub fn image_count(&self) -> (r: usize)
        ensures
            r == image_count_of(*self),
    {
        match &self.back_buffer {
            Some(v) => v.len(),
            None => 0,
        }
    }

    /// Takes the swapchain handle out for the caller to destroy, and drops
    /// the images. The generation stays.
    pub fn destroy(&mut self) -> (r: Option<S>)
        ensures
            r == old(self).swapchain,
            final(self).swapchain is None,
            final(self).back_buffer is None,
            final(self).extent == old(self).extent,
            final(self).generation == old(self).generation,
    {
        self.back_buffer = None;
        self.swapchain.take()
    }

    /// Installs a newly created swapchain, its images and its extent in
    /// place of the destroyed one, as the next generation.
    pub fn rebuild(&mut self, swapchain: S, images: Vec<I>, extent: Extent2D)
        requires
            old(self).swapchain is None,
            old(self).generation < u64::MAX,
        ensures
            final(self).swapchain == Some(swapchain),
            final(self).back_buffer == Some(images),
            final(self).extent == extent,
            final(self).generation == old(self).generation + 1,
    {
        self.swapchain = Some(swapchain);
        self.back_buffer = Some(images);
        self.extent = extent;
        self.generation = self.generation + 1;
    }
}

/// One image view and one framebuffer per image of a swapchain, and the
/// generation of that swapchain.
pub struct FramebufferState<V, F> {
    pub framebuffers: Option<Vec<F>>,
    pub image_views: Option<Vec<V>>,
    pub generation: u64,
}

/// The framebuffer at `index`, asked for as one of generation `generation`:
/// there is one only where the set is populated, of that generation, and
/// has that many framebuffers.
pub open spec fn framebuffer_at<V, F>(s: FramebufferState<V, F>, generation: u64, index: int) -> Option<F> {
    match s.framebuffers {
        Some(v) => if s.image_views is Some && generation == s.generation && 0 <= index < v@.len() {
            Some(v@[index])
        } else {
            None
        },
        None => None,
    }
}

/// The number of framebuffers of a set; none where it is empty.
pub open spec fn framebuffer_count_of<V, F>(s: FramebufferState<V, F>) -> nat {
    match s.framebuffers {
        Some(v) => v@.len(),
        None => 0,
    }
}

/// `new` is the set built from swapchain `swap` with these views and framebuffers.
pub open spec fn built_from<S, I, V, F>(new: FramebufferState<V, F>, swap: SwapchainState<S, I>, views: Seq<V>, framebuffers: Seq<F>) -> bool {
    &&& new.image_views matches Some(v) && v@ == views
    &&& new.framebuffers matches Some(f) && f@ == framebuffers
    &&& new.generation == swap.generation
    &&& framebuffer_count_of(new) == image_count_of(swap)
    &&& views.len() == framebuffers.len()
}

impl<V, F> FramebufferState<V, F> {
    /// A set with no views and no framebuffers.
    pub fn new_empty() -> (r: Self)
        ensures
            r.framebuffers is None,
            r.image_views is None,
            r.generation == 0,
    {
        FramebufferState { framebuffers: None, image_views: None, generation: 0 }
    }

    /// The set built from `swap_state`'s images: `image_views[i]` views
    /// image `i`, and `framebuffers[i]` draws into that view.
    pub fn new<S, I>(swap_state: &SwapchainState<S, I>, image_views: Vec<V>, framebuffers: Vec<F>) -> (r: Self)
        requires
            swap_state.swapchain is Some,
            image_views@.len() == image_count_of(*swap_state),
            framebuffers@.len() == image_views@.len(),
        ensures
            built_from(r, *swap_state, image_views@, framebuffers@),
    {
        let mut fbs = FramebufferState::new_empty();
        fbs.rebuild_from_swapchain(swap_state, image_views, framebuffers);
        fbs
    }

    /// Fills an empty set from the current images of `swap_state`, tagging
    /// it with the swapchain's generation.
    pub fn rebuild_from_swapchain<S, I>(&mut self, swap_state: &SwapchainState<S, I>, image_views: Vec<V>, framebuffers: Vec<F>)
        requires
            old(self).framebuffers is None,
            old(self).image_views is None,
            swap_state.swapchain is Some,
            image_views@.len() == image_count_of(*swap_state),
            framebuffers@.len() == image_views@.len(),
        ensures
            built_from(*final(self), *swap_state, image_views@, framebuffers@),
    {
        self.framebuffers = Some(framebuffers);
        self.image_views = Some(image_views);
        self.generation = swap_state.generation;
    }

    /// Whether the set holds views and framebuffers.
    pub fn is_some(&self) -> (r: bool)
        ensures
            r == (self.framebuffers is Some && self.image_views is Some),
    {
        self.framebuffers.is_some() && self.image_views.is_some()
    }

    /// Whether the set lacks views or framebuffers.
    pub fn is_none(&self) -> (r: bool)
        ensures
            r == (self.framebuffers is None || self.image_views is None),
    {
        self.framebuffers.is_none() || self.image_views.is_none()
    }

    /// The framebuffer for image `index` of swapchain generation
    /// `generation`; `None` for an empty set, another generation, or an
    /// index past the last image.
    pub fn get(&self, generation: u64, index: usize) -> (r: Option<&F>)
        ensures
            r matches Some(f) ==> framebuffer_at(*self, generation, index as int) == Some(*f),
            r is None ==> framebuffer_at(*self, generation, index as int) is None,
    {
        if self.image_views.is_none() || generation != self.generation {
            return None;
        }
        match &self.framebuffers {
            Some(v) => if index < v.len() {
                Some(&v[index])
            } else {
                None
            },
            None => None,
        }
    }

    /// Takes every framebuffer and then every view out for the caller to
    /// destroy in that order, leaving the set empty. On an empty set it hands
    /// out nothing.
    pub fn destroy(&mut self) -> (r: (Vec<F>, Vec<V>))
        ensures
            r.0@ == (match old(self).framebuffers {
                Some(v) => v@,
                None => Seq::empty(),
            }),
            r.1@ == (match old(self).image_views {
                Some(v) => v@,
                None => Seq::empty(),
            }),
            final(self).framebuffers is None,
            final(self).image_views is None,
            final(self).generation == old(self).generation,
    {
        let fbs = match self.framebuffers.take() {
            Some(v) => v,
            None => Vec::new(),
        };
        let views = match self.image_views.take() {
            Some(v) => v,
            None => Vec::new(),
        };
        (fbs, views)
    }
}

/// Rebuilding twice in a row gives, each time, one framebuffer per image
/// of the swapchain it was built from; so where the surface hands out as many
/// images the second time, both sets have the same size.
pub proof fn lemma_rebuild_twice_matches_image_count<S, I, V, F>(
    s1: SwapchainState<S, I>,
    fb1: FramebufferState<V, F>,
    views1: Seq<V>,
    framebuffers1: Seq<F>,
    s2: SwapchainState<S, I>,
    fb2: FramebufferState<V, F>,
    views2: Seq<V>,
    framebuffers2: Seq<F>,
)
    requires
        built_from(fb1, s1, views1, framebuffers1),
        s2.generation == s1.generation + 1,
        built_from(fb2, s2, views2, framebuffers2),
    ensures
        framebuffer_count_of(fb1) == image_count_of(s1),
        views1.len() == image_count_of(s1),
        framebuffer_count_of(fb2) == image_count_of(s2),
        views2.len() == image_count_of(s2),
        image_count_of(s1) == image_count_of(s2) ==> framebuffer_count_of(fb1) == framebuffer_count_of(fb2),
{
}

/// After a rebuild, nothing of the previous generation can be reached: a
/// lookup of any image index under the generation of the set that was torn
/// down finds no framebuffer in the set built from the new swapchain.
pub proof fn lemma_rebuild_hides_previous_generation<S, I, V, F>(
    previous: FramebufferState<V, F>,
    old_swap: SwapchainState<S, I>,
    new_swap: SwapchainState<S, I>,
    rebuilt: FramebufferState<V, F>,
    views: Seq<V>,
    framebuffers: Seq<F>,
)
    requires
        previous.generation == old_swap.generation,
        new_swap.generation == old_swap.generation + 1,
        built_from(rebuilt, new_swap, views, framebuffers),
    ensures
        forall|i: int| #[trigger] framebuffer_at(rebuilt, previous.generation, i) is None,
{
}

} // verus!
