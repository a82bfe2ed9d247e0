//! The decisions of the swapchain manager: when the presentation surface is
//! (re)configured, when an image is acquired, and when a frame gives up.
//!
//! The graphics calls themselves (configuring the surface, acquiring and
//! presenting an image) are made by the caller, which reports their outcome
//! back. One frame is one `RenderLoop`: it starts with `begin_render`, and
//! each reported outcome yields the next `RenderAction` until the action is
//! `Draw` or `Fail`.

use vstd::prelude::*;

verus! {

/// How many images one frame may try to acquire before it gives up.
pub const RECREATE_ATTEMPTS: u32 = 10;

/// The size in physical pixels of the window's drawable area.
#[derive(Clone, Copy, Debug, PartialEq, Eq, Structural)]
pub struct SurfaceSize {
    pub width: u32,
    pub height: u32,
}

/// The configuration the surface was last set up with.
#[derive(Clone, Copy, Debug, PartialEq, Eq, Structural)]
pub struct ActiveConfiguration {
    pub size: SurfaceSize,
}

/// What acquiring the next image of the surface gave.
#[derive(Clone, Copy, Debug, PartialEq, Eq, Structural)]
pub enum AcquireOutcome {
    /// An image was acquired; `suboptimal` says that the surface no longer
    /// matches the window exactly and should be recreated.
    Acquired { suboptimal: bool },
    /// The surface changed and must be reconfigured.
    Outdated,
    /// The surface was lost and must be reconfigured.
    Lost,
    /// Any other failure (timeout, out of memory, ...).
    OtherError,
}

/// Why a frame was abandoned.
#[derive(Clone, Copy, Debug, PartialEq, Eq, Structural)]
pub enum RenderError {
    /// The adapter offers no configuration for the surface.
    IncompatibleSurface,
    /// Acquiring an image failed in a way that reconfiguring does not mend.
    AcquireFailed,
    /// `RECREATE_ATTEMPTS` images were lost or outdated in a row.
    RetriesExhausted,
}

/// What the caller is to do next.
#[derive(Clone, Copy, Debug, PartialEq, Eq, Structural)]
pub enum RenderAction {
    /// Configure the surface for this size, then report with `configured`.
    Configure(SurfaceSize),
    /// Acquire the next image, then report with `acquired`.
    Acquire,
    /// Draw into the acquired image and present it; the frame is done.
    Draw,
    /// Give up on this frame.
    Fail(RenderError),
}

/// Where a frame stands.
#[derive(Clone, Copy, Debug, PartialEq, Eq, Structural)]
pub enum RenderPhase {
    Configuring,
    Acquiring,
    Finished,
}

/// The manager's state, as the decisions see it.
pub struct SwapchainModel {
    pub active: Option<SurfaceSize>,
    pub should_recreate: bool,
}

/// One frame's state, as the decisions see it.
pub struct LoopModel {
    pub size: SurfaceSize,
    pub attempts: nat,
    pub phase: RenderPhase,
}

/// The state of the swapchain manager; `F` is the surface's texture format,
/// which the manager only carries.
pub struct MySwapchainManager<F> {
    format: F,
    active: Option<ActiveConfiguration>,
    should_recreate: bool,
}

/// The state of one frame.
pub struct RenderLoop {
    size: SurfaceSize,
    attempts: u32,
    phase: RenderPhase,
}

impl<F> View for MySwapchainManager<F> {
    type V = SwapchainModel;

    closed spec fn view(&self) -> SwapchainModel {
        SwapchainModel {
            active: match self.active {
                Some(a) => Some(a.size),
                None => None,
            },
            should_recreate: self.should_recreate,
        }
    }
}

impl View for RenderLoop {
    type V = LoopModel;

    closed spec fn view(&self) -> LoopModel {
        LoopModel { size: self.size, attempts: self.attempts as nat, phase: self.phase }
    }
}

/// A frame that is still running has tried fewer than `RECREATE_ATTEMPTS`
/// images.
pub open spec fn loop_wf(l: LoopModel) -> bool {
    &&& l.attempts <= RECREATE_ATTEMPTS
    &&& l.phase != RenderPhase::Finished ==> l.attempts < RECREATE_ATTEMPTS
}

/// The phase a frame is in after an action.
pub open spec fn phase_after(a: RenderAction) -> RenderPhase {
    match a {
        RenderAction::Configure(_) => RenderPhase::Configuring,
        RenderAction::Acquire => RenderPhase::Acquiring,
        _ => RenderPhase::Finished,
    }
}

/// Whether a frame at `size` must first configure the surface: when asked
/// to, when nothing was configured yet, or when the window's size changed.
pub open spec fn needs_recreate(m: SwapchainModel, size: SurfaceSize) -> bool {
    m.should_recreate || m.active != Some(size)
}

/// The head of each try of a frame: configure first if that is pending
/// (which clears the request), then acquire.
pub open spec fn loop_head(m: SwapchainModel, l: LoopModel) -> (SwapchainModel, LoopModel, RenderAction) {
    if m.should_recreate {
        (
            SwapchainModel { should_recreate: false, ..m },
            LoopModel { phase: RenderPhase::Configuring, ..l },
            RenderAction::Configure(l.size),
        )
    } else {
        (m, LoopModel { phase: RenderPhase::Acquiring, ..l }, RenderAction::Acquire)
    }
}

/// Starting a frame at `size`.
pub open spec fn begin_step(m: SwapchainModel, size: SurfaceSize) -> (SwapchainModel, LoopModel, RenderAction) {
    let m1 = SwapchainModel { should_recreate: needs_recreate(m, size), ..m };
    loop_head(m1, LoopModel { size, attempts: 0, phase: RenderPhase::Configuring })
}

/// The surface was configured (`compatible`) or the adapter had no
/// configuration for it.
pub open spec fn configure_step(m: SwapchainModel, l: LoopModel, compatible: bool) -> (SwapchainModel, LoopModel, RenderAction) {
    if compatible {
        (
            SwapchainModel { active: Some(l.size), ..m },
            LoopModel { phase: RenderPhase::Acquiring, ..l },
            RenderAction::Acquire,
        )
    } else {
        (
            m,
            LoopModel { phase: RenderPhase::Finished, ..l },
            RenderAction::Fail(RenderError::IncompatibleSurface),
        )
    }
}

/// An acquisition gave `outcome`.
pub open spec fn acquire_step(m: SwapchainModel, l: LoopModel, outcome: AcquireOutcome) -> (SwapchainModel, LoopModel, RenderAction) {
    match outcome {
        AcquireOutcome::Acquired { suboptimal } => (
            SwapchainModel { should_recreate: m.should_recreate || suboptimal, ..m },
            LoopModel { phase: RenderPhase::Finished, ..l },
            RenderAction::Draw,
        ),
        AcquireOutcome::OtherError => (
            m,
            LoopModel { phase: RenderPhase::Finished, ..l },
            RenderAction::Fail(RenderError::AcquireFailed),
        ),
        _ => {
            let m1 = SwapchainModel { should_recreate: true, ..m };
            let l1 = LoopModel { attempts: l.attempts + 1, ..l };
            if l1.attempts >= RECREATE_ATTEMPTS {
                (
                    m1,
                    LoopModel { phase: RenderPhase::Finished, ..l1 },
                    RenderAction::Fail(RenderError::RetriesExhausted),
                )
            } else {
                loop_head(m1, l1)
            }
        },
    }
}

impl RenderLoop {
    /// The size this frame configures the surface for.
    pub fn size(&self) -> (s: SurfaceSize)
        ensures
            s == self@.size,
    {
        self.size
    }

    /// How many images this frame has failed to acquire so far.
    pub fn attempts(&self) -> (n: u32)
        ensures
            n == self@.attempts,
    {
        self.attempts
    }

    /// Where this frame stands.
    pub fn phase(&self) -> (p: RenderPhase)
        ensures
            p == self@.phase,
    {
        self.phase
    }
}

impl<F: Copy> MySwapchainManager<F> {
    /// The format the manager carries.
    pub closed spec fn spec_format(&self) -> F {
        self.format
    }

    /// A manager for a surface whose supported formats are `formats`: it
    /// uses the first, has configured nothing and will configure on the
    /// first frame.
    pub fn new(formats: &[F]) -> (m: Self)
        requires
            formats@.len() > 0,
        ensures
            m.spec_format() == formats@[0],
            m@.active == None::<SurfaceSize>,
            m@.should_recreate,
    {
        MySwapchainManager { format: formats[0], active: None, should_recreate: true }
    }

    /// Asks that the surface be configured anew before the next image is
    /// acquired.
    pub fn should_recreate(&mut self)
        ensures
            final(self)@.active == old(self)@.active,
            final(self)@.should_recreate,
            final(self).spec_format() == old(self).spec_format(),
    {
        self.should_recreate = true;
    }

    /// The surface's texture format.
    pub fn format(&self) -> (f: F)
        ensures
            f == self.spec_format(),
    {
        self.format
    }

    /// The size the surface was last configured for, if any.
    pub fn active_size(&self) -> (s: Option<SurfaceSize>)
        ensures
            s == self@.active,
    {
        match &self.active {
            Some(a) => Some(a.size),
            None => None,
        }
    }

    /// Whether the surface is to be configured anew.
    pub fn recreate_pending(&self) -> (b: bool)
        ensures
            b == self@.should_recreate,
    {
        self.should_recreate
    }

    fn head(&mut self, lp: &mut RenderLoop) -> (a: RenderAction)
        requires
            old(lp)@.attempts < RECREATE_ATTEMPTS,
        ensures
            (final(self)@, final(lp)@, a) == loop_head(old(self)@, old(lp)@),
            final(self).spec_format() == old(self).spec_format(),
    {
        if self.should_recreate {
            self.should_recreate = false;
            lp.phase = RenderPhase::Configuring;
            RenderAction::Configure(lp.size)
        } else {
            lp.phase = RenderPhase::Acquiring;
            RenderAction::Acquire
        }
    }

    /// Starts a frame for a window of `size`.
    pub fn begin_render(&mut self, size: SurfaceSize) -> (r: (RenderLoop, RenderAction))
        ensures
            (final(self)@, r.0@, r.1) == begin_step(old(self)@, size),
            loop_wf(r.0@),
            r.0@.phase == phase_after(r.1),
            final(self).spec_format() == old(self).spec_format(),
    {
        let changed = match &self.active {
            Some(active) => active.size != size,
            None => true,
        };
        if changed {
            self.should_recreate();
        }
        let mut lp = RenderLoop { size, attempts: 0, phase: RenderPhase::Configuring };
        let a = self.head(&mut lp);
        (lp, a)
    }

    /// Reports the outcome of configuring the surface.
    pub fn configured(&mut self, lp: &mut RenderLoop, compatible: bool) -> (a: RenderAction)
        requires
            old(lp)@.phase == RenderPhase::Configuring,
            loop_wf(old(lp)@),
        ensures
            (final(self)@, final(lp)@, a) == configure_step(old(self)@, old(lp)@, compatible),
            loop_wf(final(lp)@),
            final(lp)@.phase == phase_after(a),
            final(self).spec_format() == old(self).spec_format(),
    {
        if compatible {
            self.active = Some(ActiveConfiguration { size: lp.size });
            lp.phase = RenderPhase::Acquiring;
            RenderAction::Acquire
        } else {
            lp.phase = RenderPhase::Finished;
            RenderAction::Fail(RenderError::IncompatibleSurface)
        }
    }

    /// Reports the outcome of acquiring an image.
    pub fn acquired(&mut self, lp: &mut RenderLoop, outcome: AcquireOutcome) -> (a: RenderAction)
        requires
            old(lp)@.phase == RenderPhase::Acquiring,
            loop_wf(old(lp)@),
        ensures
            (final(self)@, final(lp)@, a) == acquire_step(old(self)@, old(lp)@, outcome),
            loop_wf(final(lp)@),
            final(lp)@.phase == phase_after(a),
            final(self).spec_format() == old(self).spec_format(),
    {
        match outcome {
            AcquireOutcome::Acquired { suboptimal } => {
                if suboptimal {
                    self.should_recreate = true;
                }
                lp.phase = RenderPhase::Finished;
                RenderAction::Draw
            },
            AcquireOutcome::OtherError => {
                lp.phase = RenderPhase::Finished;
                RenderAction::Fail(RenderError::AcquireFailed)
            },
            _ => {
                self.should_recreate = true;
                lp.attempts = lp.attempts + 1;
                if lp.attempts >= RECREATE_ATTEMPTS {
                    lp.phase = RenderPhase::Finished;
                    RenderAction::Fail(RenderError::RetriesExhausted)
                } else {
                    self.head(lp)
                }
            },
        }
    }
}


/// One more try of a frame whose acquisitions are all lost: the surface is
/// configured if that was asked for, then the image is lost.
pub open spec fn lost_round(m: SwapchainModel, l: LoopModel, a: RenderAction) -> (SwapchainModel, LoopModel, RenderAction) {
    match a {
        RenderAction::Configure(_) => {
            let (m1, l1, _a1) = configure_step(m, l, true);
            acquire_step(m1, l1, AcquireOutcome::Lost)
        },
        RenderAction::Acquire => acquire_step(m, l, AcquireOutcome::Lost),
        _ => (m, l, a),
    }
}

/// A frame at `size` after `n` of its images were lost.
pub open spec fn after_losses(m: SwapchainModel, size: SurfaceSize, n: nat) -> (SwapchainModel, LoopModel, RenderAction)
    decreases n,
{
    if n == 0 {
        begin_step(m, size)
    } else {
        let (m1, l1, a1) = after_losses(m, size, (n - 1) as nat);
        lost_round(m1, l1, a1)
    }
}

/// Starting a frame at `size` configures the surface at that size exactly
/// when a new surface was asked for, when nothing is configured yet, or when
/// the configured size differs; otherwise the frame acquires an image at
/// once. Either way the request is cleared, the configured size is kept, and
/// the frame, at `size`, has tried no image yet.
pub proof fn lemma_begin_render_decides(m: SwapchainModel, size: SurfaceSize)
    ensures
        begin_step(m, size).2 == (if m.should_recreate || m.active != Some(size) {
            RenderAction::Configure(size)
        } else {
            RenderAction::Acquire
        }),
        !begin_step(m, size).0.should_recreate,
        begin_step(m, size).0.active == m.active,
        begin_step(m, size).1.size == size,
        begin_step(m, size).1.attempts == 0,
{
}

/// A surface that was configured lets the frame go on to acquire an image,
/// whatever size was configured before: the new size is recorded and
/// nothing else changes. A surface the adapter has no configuration for
/// abandons the frame as incompatible and leaves the manager as it was.
pub proof fn lemma_configured_surface_is_acquired(m: SwapchainModel, l: LoopModel)
    requires
        l.phase == RenderPhase::Configuring,
        loop_wf(l),
    ensures
        configure_step(m, l, true).2 == RenderAction::Acquire,
        configure_step(m, l, true).0.active == Some(l.size),
        configure_step(m, l, true).0.should_recreate == m.should_recreate,
        configure_step(m, l, true).1.size == l.size,
        configure_step(m, l, true).1.attempts == l.attempts,
        configure_step(m, l, true).1.phase == RenderPhase::Acquiring,
        configure_step(m, l, false).2 == RenderAction::Fail(RenderError::IncompatibleSurface),
        configure_step(m, l, false).0.active == m.active,
        configure_step(m, l, false).0.should_recreate == m.should_recreate,
        configure_step(m, l, false).1.phase == RenderPhase::Finished,
{
}

/// An acquired image is always drawn, however many images the frame lost
/// before it; a suboptimal one also asks for a new surface, and nothing else
/// changes. Any failure other than a lost or outdated surface abandons the
/// frame and leaves the manager as it was.
pub proof fn lemma_acquired_image_is_drawn(m: SwapchainModel, l: LoopModel, suboptimal: bool)
    requires
        l.phase == RenderPhase::Acquiring,
        loop_wf(l),
    ensures
        acquire_step(m, l, AcquireOutcome::Acquired { suboptimal }).2 == RenderAction::Draw,
        acquire_step(m, l, AcquireOutcome::Acquired { suboptimal }).0.should_recreate == (
        m.should_recreate || suboptimal),
        acquire_step(m, l, AcquireOutcome::Acquired { suboptimal }).0.active == m.active,
        acquire_step(m, l, AcquireOutcome::Acquired { suboptimal }).1.attempts == l.attempts,
        acquire_step(m, l, AcquireOutcome::Acquired { suboptimal }).1.phase == RenderPhase::Finished,
        acquire_step(m, l, AcquireOutcome::OtherError).2 == RenderAction::Fail(
            RenderError::AcquireFailed,
        ),
        acquire_step(m, l, AcquireOutcome::OtherError).0.active == m.active,
        acquire_step(m, l, AcquireOutcome::OtherError).0.should_recreate == m.should_recreate,
{
}

/// Asking for a new surface makes the next frame configure it, at the
/// window's size, before it acquires an image.
pub proof fn lemma_request_forces_configure(m: SwapchainModel, size: SurfaceSize)
    requires
        m.should_recreate,
    ensures
        begin_step(m, size).2 == RenderAction::Configure(size),
        !begin_step(m, size).0.should_recreate,
{
}

/// A window whose size differs from the configured one (or a surface not
/// yet configured) is configured at the new size before the frame acquires.
pub proof fn lemma_resize_forces_configure(m: SwapchainModel, size: SurfaceSize)
    requires
        m.active != Some(size),
    ensures
        begin_step(m, size).2 == RenderAction::Configure(size),
{
}

/// The size a frame configures is remembered: once a frame at `size` has
/// drawn an image that was not suboptimal, the next frame at the same size
/// acquires at once, without configuring again.
pub proof fn lemma_stable_size_keeps_configuration(m: SwapchainModel, size: SurfaceSize)
    ensures
        ({
            let (m1, l1, a1) = begin_step(m, size);
            let (m2, l2, _a2) = if a1 == RenderAction::Acquire {
                (m1, l1, a1)
            } else {
                configure_step(m1, l1, true)
            };
            let (m3, _l3, a3) = acquire_step(m2, l2, AcquireOutcome::Acquired { suboptimal: false });
            &&& a3 == RenderAction::Draw
            &&& m3.active == Some(size)
            &&& begin_step(m3, size).2 == RenderAction::Acquire
        }),
{
}

/// An image reported suboptimal makes the next frame configure the surface
/// again, whatever the window's size.
pub proof fn lemma_suboptimal_forces_configure(m: SwapchainModel, l: LoopModel, size: SurfaceSize)
    requires
        l.phase == RenderPhase::Acquiring,
        loop_wf(l),
    ensures
        ({
            let (m1, _l1, a1) = acquire_step(m, l, AcquireOutcome::Acquired { suboptimal: true });
            &&& a1 == RenderAction::Draw
            &&& begin_step(m1, size).2 == RenderAction::Configure(size)
        }),
{
}

/// A lost or outdated image makes the frame configure the surface again, at
/// the frame's size, before it tries the next image, unless that image was
/// its last try.
pub proof fn lemma_loss_reconfigures_before_retry(m: SwapchainModel, l: LoopModel, outcome: AcquireOutcome)
    requires
        l.phase == RenderPhase::Acquiring,
        loop_wf(l),
        outcome == AcquireOutcome::Lost || outcome == AcquireOutcome::Outdated,
    ensures
        acquire_step(m, l, outcome).1.attempts == l.attempts + 1,
        l.attempts + 1 < RECREATE_ATTEMPTS ==> acquire_step(m, l, outcome).2
            == RenderAction::Configure(l.size),
        l.attempts + 1 == RECREATE_ATTEMPTS ==> acquire_step(m, l, outcome).2 == RenderAction::Fail(
            RenderError::RetriesExhausted,
        ),
        acquire_step(m, l, outcome).0.active == m.active,
        acquire_step(m, l, outcome).1.size == l.size,
        l.attempts + 1 < RECREATE_ATTEMPTS ==> !acquire_step(m, l, outcome).0.should_recreate,
        l.attempts + 1 == RECREATE_ATTEMPTS ==> acquire_step(m, l, outcome).0.should_recreate,
{
}

/// A frame whose images are all lost configures the surface before every
/// try and gives up after exactly `RECREATE_ATTEMPTS` tries.
pub proof fn lemma_losses_exhaust_retries(m: SwapchainModel, size: SurfaceSize, n: nat)
    requires
        n <= RECREATE_ATTEMPTS,
    ensures
        after_losses(m, size, n).1.attempts == n,
        after_losses(m, size, n).1.size == size,
        n >= 1 && n < RECREATE_ATTEMPTS ==> after_losses(m, size, n).2 == RenderAction::Configure(size),
        n == RECREATE_ATTEMPTS ==> after_losses(m, size, n).2 == RenderAction::Fail(
            RenderError::RetriesExhausted,
        ),
        n < RECREATE_ATTEMPTS ==> after_losses(m, size, n).1.phase == phase_after(after_losses(m, size, n).2),
        n < RECREATE_ATTEMPTS ==> (after_losses(m, size, n).2 is Configure
            || after_losses(m, size, n).2 is Acquire),
    decreases n,
{
    if n > 0 {
        lemma_losses_exhaust_retries(m, size, (n - 1) as nat);
    }
}

} // verus!
