//! Swapchain planning and the lifecycle of swapchain-derived resources.
//!
//! The planning policy chooses the surface format, present mode, extent and
//! image count from what the surface reports; the resource set keeps one
//! image view and one framebuffer per image; and recreation tears the old
//! generation down only after a device-idle wait, in dependency order:
//! framebuffers, then image views, then the swapchain itself.
//!
//! The surrounding executable queries the surface and creates the actual
//! handles; it feeds capabilities in and handles back as plain integers.

use vstd::prelude::*;

verus! {

/// The extent value with which a surface reports that the application
/// chooses the extent itself.
pub const EXTENT_DECIDED_BY_WINDOW: u32 = 0xffffffff;

/// A pixel rectangle, as the surface and the window report it.
#[derive(Clone, Copy, Debug, PartialEq, Eq, Structural)]
pub struct Extent2D {
    pub width: u32,
    pub height: u32,
}

/// A surface format choice: the raw format and colour-space codes of the
/// graphics API, carried through untouched.
#[derive(Clone, Copy, Debug, PartialEq, Eq, Structural)]
pub struct SurfaceFormat {
    pub format: i32,
    pub color_space: i32,
}

/// The presentation modes the policy can tell apart.
#[derive(Clone, Copy, Debug, PartialEq, Eq, Structural)]
pub enum PresentMode {
    /// Low-latency triple buffering.
    Mailbox,
    /// Non-blocking, may tear.
    Immediate,
    /// Queued, vertical-sync bound.
    Fifo,
    /// Any mode the policy does not prefer.
    Other,
}

/// What the surface reports about itself before a swapchain is built.
#[derive(Clone, Copy, Debug, PartialEq, Eq, Structural)]
pub struct SurfaceCapabilities {
    pub min_image_count: u32,
    /// Zero means the surface puts no upper bound on the image count.
    pub max_image_count: u32,
    /// `EXTENT_DECIDED_BY_WINDOW` in `width` means the caller's window size
    /// decides.
    pub current_extent: Extent2D,
    /// Raw pre-transform flag of the surface, carried through untouched.
    pub current_transform: u32,
}

/// Everything a swapchain-creation call needs that the policy decides.
#[derive(Clone, Copy, Debug, PartialEq, Eq, Structural)]
pub struct SwapchainPlan {
    pub format: SurfaceFormat,
    pub present_mode: PresentMode,
    pub extent: Extent2D,
    pub min_image_count: u32,
    pub pre_transform: u32,
}

/// Why no swapchain plan or resource set could be produced.
#[derive(Clone, Copy, Debug, PartialEq, Eq, Structural)]
pub enum SwapchainError {
    /// The surface reported no format at all.
    NoSurfaceFormat,
    /// The presentation engine handed back no image.
    NoImages,
    /// The per-image resources do not pair up one to one with the images.
    MismatchedResourceCounts,
}

/// The present mode the policy prefers: the low-latency triple-buffering
/// mode when the surface offers it, else the non-blocking immediate mode.
pub open spec fn preferred_present_mode(modes: Seq<PresentMode>) -> PresentMode {
    if modes.contains(PresentMode::Mailbox) {
        PresentMode::Mailbox
    } else {
        PresentMode::Immediate
    }
}

/// The extent the swapchain is built at: the window's size when the surface
/// defers to the application, else the surface's current extent.
pub open spec fn resolved_extent(caps: SurfaceCapabilities, window: Extent2D) -> Extent2D {
    if caps.current_extent.width == EXTENT_DECIDED_BY_WINDOW {
        window
    } else {
        caps.current_extent
    }
}

/// The image count the swapchain asks for: one more than the surface's
/// minimum, clamped to its maximum when that maximum is a bound at all.
pub open spec fn requested_image_count(caps: SurfaceCapabilities) -> int {
    let c = caps.min_image_count + 1;
    if caps.max_image_count > 0 && c > caps.max_image_count {
        caps.max_image_count as int
    } else {
        c
    }
}

/// The full plan the policy produces from what the surface reports. Only
/// meaningful when at least one surface format exists.
pub open spec fn spec_plan(
    caps: SurfaceCapabilities,
    formats: Seq<SurfaceFormat>,
    modes: Seq<PresentMode>,
    window: Extent2D,
) -> SwapchainPlan {
    SwapchainPlan {
        format: formats[0],
        present_mode: preferred_present_mode(modes),
        extent: resolved_extent(caps, window),
        min_image_count: requested_image_count(caps) as u32,
        pre_transform: caps.current_transform,
    }
}

/// Picks the present mode, preferring the low-latency triple-buffering mode
/// and falling back to the non-blocking immediate mode.
pub fn choose_present_mode(modes: &Vec<PresentMode>) -> (r: PresentMode)
    ensures
        r == preferred_present_mode(modes@),
{
    let mut i: usize = 0;
    while i < modes.len()
        invariant
            i <= modes@.len(),
            forall|j: int| 0 <= j < i ==> modes@[j] != PresentMode::Mailbox,
        decreases modes@.len() - i,
    {
        if modes[i] == PresentMode::Mailbox {
            return PresentMode::Mailbox;
        }
        i = i + 1;
    }
    assert(!modes@.contains(PresentMode::Mailbox));
    PresentMode::Immediate
}

/// Resolves the swapchain extent from the surface's report and the window's
/// current size.
pub fn resolve_extent(caps: &SurfaceCapabilities, window: Extent2D) -> (r: Extent2D)
    ensures
        r == resolved_extent(*caps, window),
{
    if caps.current_extent.width == EXTENT_DECIDED_BY_WINDOW {
        window
    } else {
        caps.current_extent
    }
}

/// Computes the image count to request: the surface's minimum plus one,
/// clamped to the surface's maximum when the maximum is nonzero.
pub fn clamp_image_count(caps: &SurfaceCapabilities) -> (r: u32)
    requires
        caps.min_image_count < u32::MAX,
    ensures
        r == requested_image_count(*caps),
{
    let c = caps.min_image_count + 1;
    if caps.max_image_count > 0 && c > caps.max_image_count {
        caps.max_image_count
    } else {
        c
    }
}

/// Produces the swapchain plan from what the surface reports: first listed
/// format, preferred present mode, resolved extent, clamped image count.
/// Fails exactly when the surface reports no format.
pub fn plan_swapchain(
    caps: &SurfaceCapabilities,
    formats: &Vec<SurfaceFormat>,
    modes: &Vec<PresentMode>,
    window: Extent2D,
) -> (r: Result<SwapchainPlan, SwapchainError>)
    requires
        caps.min_image_count < u32::MAX,
    ensures
        formats@.len() > 0 ==> r == Ok::<SwapchainPlan, SwapchainError>(
            spec_plan(*caps, formats@, modes@, window),
        ),
        formats@.len() == 0 ==> r == Err::<SwapchainPlan, SwapchainError>(
            SwapchainError::NoSurfaceFormat,
        ),
{
    if formats.len() == 0 {
        return Err(SwapchainError::NoSurfaceFormat);
    }
    let format = formats[0];
    let present_mode = choose_present_mode(modes);
    let extent = resolve_extent(caps, window);
    let min_image_count = clamp_image_count(caps);
    Ok(
        SwapchainPlan {
            format,
            present_mode,
            extent,
            min_image_count,
            pre_transform: caps.current_transform,
        },
    )
}

/// One generation of swapchain-derived resources: the swapchain handle, its
/// images, one image view per image and one framebuffer per image view, with
/// the format and extent they were built at. Handles are the graphics API's
/// opaque integers.
#[derive(Debug)]
pub struct SwapchainResources {
    pub swapchain: u64,
    pub images: Vec<u64>,
    pub image_views: Vec<u64>,
    pub framebuffers: Vec<u64>,
    pub format: SurfaceFormat,
    pub extent: Extent2D,
    /// Counts how often the set has been rebuilt; no handle may be used
    /// across a change of generation.
    pub generation: u64,
}

impl SwapchainResources {
    /// The resource invariant: as many image views and framebuffers as
    /// images, and at least one image.
    pub open spec fn wf(self) -> bool {
        &&& self.images@.len() > 0
        &&& self.image_views@.len() == self.images@.len()
        &&& self.framebuffers@.len() == self.images@.len()
    }

    /// The set carries the format and extent of the given plan.
    pub open spec fn built_from(self, plan: SwapchainPlan) -> bool {
        &&& self.format == plan.format
        &&& self.extent == plan.extent
    }

    /// Gathers one generation of resources from the handles the graphics
    /// API produced for the given plan. Fails exactly when the presentation
    /// engine handed back no image, or when views and framebuffers do not
    /// pair up one to one with the images.
    pub fn assemble(
        plan: &SwapchainPlan,
        swapchain: u64,
        images: Vec<u64>,
        image_views: Vec<u64>,
        framebuffers: Vec<u64>,
        generation: u64,
    ) -> (r: Result<SwapchainResources, SwapchainError>)
        ensures
            match r {
                Ok(res) => {
                    &&& res.wf()
                    &&& res.built_from(*plan)
                    &&& res.swapchain == swapchain
                    &&& res.images@ == images@
                    &&& res.image_views@ == image_views@
                    &&& res.framebuffers@ == framebuffers@
                    &&& res.generation == generation
                },
                Err(e) => {
                    &&& (e == SwapchainError::NoImages <==> images@.len() == 0)
                    &&& (e == SwapchainError::MismatchedResourceCounts <==> images@.len() > 0 && (
                    image_views@.len() != images@.len() || framebuffers@.len() != images@.len()))
                },
            },
            r is Err <==> (images@.len() == 0 || image_views@.len() != images@.len()
                || framebuffers@.len() != images@.len()),
    {
        if images.len() == 0 {
            return Err(SwapchainError::NoImages);
        }
        if image_views.len() != images.len() || framebuffers.len() != images.len() {
            return Err(SwapchainError::MismatchedResourceCounts);
        }
        Ok(
            SwapchainResources {
                swapchain,
                images,
                image_views,
                framebuffers,
                format: plan.format,
                extent: plan.extent,
                generation,
            },
        )
    }
}

/// One step of the recreation sequence that the surrounding executable must
/// perform against the graphics API, in order.
#[derive(Clone, Copy, Debug, PartialEq, Eq, Structural)]
pub enum GpuAction {
    /// Block until all previously submitted GPU work has completed.
    WaitDeviceIdle,
    DestroyFramebuffer(u64),
    DestroyImageView(u64),
    DestroySwapchain(u64),
}

/// True for the steps that destroy a resource of the old generation.
pub open spec fn is_destroy(a: GpuAction) -> bool {
    !(a is WaitDeviceIdle)
}

/// The teardown sequence for one generation of resources: wait for the
/// device to go idle, then destroy framebuffers, then image views, then the
/// swapchain.
pub open spec fn spec_teardown(res: SwapchainResources) -> Seq<GpuAction> {
    seq![GpuAction::WaitDeviceIdle] + res.framebuffers@.map_values(
        |h: u64| GpuAction::DestroyFramebuffer(h),
    ) + res.image_views@.map_values(|h: u64| GpuAction::DestroyImageView(h)) + seq![
        GpuAction::DestroySwapchain(res.swapchain),
    ]
}

/// Lays out the teardown of one generation of resources: the device-idle
/// wait first, then every framebuffer, then every image view, then the
/// swapchain handle itself.
pub fn teardown_actions(res: &SwapchainResources) -> (r: Vec<GpuAction>)
    ensures
        r@ == spec_teardown(*res),
{
    let mut r: Vec<GpuAction> = Vec::new();
    r.push(GpuAction::WaitDeviceIdle);
    let mut i: usize = 0;
    while i < res.framebuffers.len()
        invariant
            i <= res.framebuffers@.len(),
            r@ == seq![GpuAction::WaitDeviceIdle] + res.framebuffers@.subrange(
                0,
                i as int,
            ).map_values(|h: u64| GpuAction::DestroyFramebuffer(h)),
        decreases res.framebuffers@.len() - i,
    {
        r.push(GpuAction::DestroyFramebuffer(res.framebuffers[i]));
        proof {
            assert(res.framebuffers@.subrange(0, i + 1 as int).map_values(
                |h: u64| GpuAction::DestroyFramebuffer(h),
            ) =~= res.framebuffers@.subrange(0, i as int).map_values(
                |h: u64| GpuAction::DestroyFramebuffer(h),
            ).push(GpuAction::DestroyFramebuffer(res.framebuffers@[i as int])));
        }
        i = i + 1;
    }
    proof {
        assert(res.framebuffers@.subrange(0, res.framebuffers@.len() as int) =~= res.framebuffers@);
    }
    let ghost after_fbs = r@;
    let mut j: usize = 0;
    while j < res.image_views.len()
        invariant
            j <= res.image_views@.len(),
            r@ == after_fbs + res.image_views@.subrange(0, j as int).map_values(
                |h: u64| GpuAction::DestroyImageView(h),
            ),
            after_fbs == seq![GpuAction::WaitDeviceIdle] + res.framebuffers@.map_values(
                |h: u64| GpuAction::DestroyFramebuffer(h),
            ),
        decreases res.image_views@.len() - j,
    {
        r.push(GpuAction::DestroyImageView(res.image_views[j]));
        proof {
            assert(res.image_views@.subrange(0, j + 1 as int).map_values(
                |h: u64| GpuAction::DestroyImageView(h),
            ) =~= res.image_views@.subrange(0, j as int).map_values(
                |h: u64| GpuAction::DestroyImageView(h),
            ).push(GpuAction::DestroyImageView(res.image_views@[j as int])));
        }
        j = j + 1;
    }
    proof {
        assert(res.image_views@.subrange(0, res.image_views@.len() as int) =~= res.image_views@);
    }
    r.push(GpuAction::DestroySwapchain(res.swapchain));
    proof {
        assert(r@ =~= spec_teardown(*res));
    }
    r
}

/// Recreation-safety law: in the teardown sequence of any resource set, no
/// destroy step stands before a device-idle wait; the wait is the first
/// step, and everything that destroys comes after it.
pub proof fn lemma_no_destroy_before_idle(res: SwapchainResources)
    ensures
        spec_teardown(res)[0] == GpuAction::WaitDeviceIdle,
        forall|j: int|
            0 <= j < spec_teardown(res).len() && is_destroy(spec_teardown(res)[j]) ==> exists|i: int|
                0 <= i < j && spec_teardown(res)[i] == GpuAction::WaitDeviceIdle,
{
    assert forall|j: int|
        0 <= j < spec_teardown(res).len() && is_destroy(spec_teardown(res)[j]) implies exists|
        i: int,
    | 0 <= i < j && spec_teardown(res)[i] == GpuAction::WaitDeviceIdle by {
        assert(spec_teardown(res)[0] == GpuAction::WaitDeviceIdle);
        assert(0 <= 0 < j && spec_teardown(res)[0] == GpuAction::WaitDeviceIdle);
    }
}

/// Structural equivalence of two resource sets: the same image, view and
/// framebuffer counts and the same format and extent; the handle values
/// themselves may differ.
pub open spec fn structurally_equivalent(a: SwapchainResources, b: SwapchainResources) -> bool {
    &&& a.images@.len() == b.images@.len()
    &&& a.image_views@.len() == b.image_views@.len()
    &&& a.framebuffers@.len() == b.framebuffers@.len()
    &&& a.format == b.format
    &&& a.extent == b.extent
}

/// Idempotence law: recreation plans from the same surface state and window
/// extent are identical — the plan does not depend on the resources that
/// stood before — and two well-formed resource sets built from that one plan
/// are structurally equivalent as soon as the presentation engine handed
/// back equally many images both times.
pub proof fn lemma_recreate_idempotent(
    caps: SurfaceCapabilities,
    formats: Seq<SurfaceFormat>,
    modes: Seq<PresentMode>,
    window: Extent2D,
    r1: SwapchainResources,
    r2: SwapchainResources,
)
    requires
        formats.len() > 0,
        r1.wf(),
        r2.wf(),
        r1.built_from(spec_plan(caps, formats, modes, window)),
        r2.built_from(spec_plan(caps, formats, modes, window)),
        r1.images@.len() == r2.images@.len(),
    ensures
        r1.format == r2.format,
        r1.extent == r2.extent,
        structurally_equivalent(r1, r2),
{
}

} // verus!
