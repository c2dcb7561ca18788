//! Overlay frame orchestration: the process-wide overlay state, what one
//! presentation cycle does with it, and the decisions of the control view.
//!
//! The state is lazily initialized, lives for the process, and is never
//! torn down; the mutual-exclusion around it belongs to the caller. The
//! renderer is bound to exactly one graphics device for its lifetime, so
//! binding happens on the first frame that can reach a device and never
//! again.

use vstd::prelude::*;

verus! {

/// Which view the overlay shows.
#[derive(Clone, Copy, Debug, PartialEq, Eq, Structural)]
pub enum OverlayView {
    /// The persistent minimized trigger view.
    Trigger,
    /// The full control view, shown once the trigger was activated.
    Control,
}

/// What the present hook must do for one frame.
#[derive(Clone, Copy, Debug, PartialEq, Eq, Structural)]
pub struct FramePlan {
    /// Construct the UI context (first frame only).
    pub init_context: bool,
    /// Bind the renderer to the device reachable from this surface
    /// (first frame with a reachable device only).
    pub bind_device: bool,
    /// Run and submit the overlay frame; false skips this frame's
    /// overlay without touching the forwarded present call.
    pub render: bool,
}

/// The process-wide overlay state.
#[derive(Clone, Copy, Debug, PartialEq, Eq, Structural)]
pub struct OverlayState {
    /// The UI context has been constructed.
    pub context_ready: bool,
    /// The renderer is bound to a graphics device.
    pub device_bound: bool,
    /// The control view is open.
    pub menu_open: bool,
}

impl OverlayState {
    /// The state before any frame: nothing constructed, trigger view.
    pub fn new() -> (s: OverlayState)
        ensures
            !s.context_ready,
            !s.device_bound,
            !s.menu_open,
    {
        OverlayState { context_ready: false, device_bound: false, menu_open: false }
    }

    /// Plans one overlay frame. `device_available` says whether a
    /// graphics device is reachable from the surface being presented.
    /// The context is constructed on the first frame; the device is
    /// bound on the first frame that can reach one; the frame renders
    /// exactly when a device is bound by then, and is skipped otherwise
    /// (a missing device is non-fatal and retried next frame).
    pub fn begin_frame(&mut self, device_available: bool) -> (p: FramePlan)
        ensures
            p.init_context <==> !old(self).context_ready,
            p.bind_device <==> !old(self).device_bound && device_available,
            p.render <==> (old(self).device_bound || device_available),
            final(self).context_ready,
            final(self).device_bound == (old(self).device_bound || device_available),
            final(self).menu_open == old(self).menu_open,
    {
        let init_context = !self.context_ready;
        self.context_ready = true;
        let bind_device = !self.device_bound && device_available;
        if device_available {
            self.device_bound = true;
        }
        let render = self.device_bound;
        FramePlan { init_context, bind_device, render }
    }

    /// The view this frame shows: the control view exactly when the
    /// menu is open.
    pub fn current_view(&self) -> (v: OverlayView)
        ensures
            v == OverlayView::Control <==> self.menu_open,
            v == OverlayView::Trigger <==> !self.menu_open,
    {
        if self.menu_open {
            OverlayView::Control
        } else {
            OverlayView::Trigger
        }
    }

    /// The trigger view's button was activated: open the control view.
    pub fn on_trigger_clicked(&mut self)
        ensures
            final(self).menu_open,
            final(self).context_ready == old(self).context_ready,
            final(self).device_bound == old(self).device_bound,
    {
        self.menu_open = true;
    }

    /// The control view was closed: back to the trigger view.
    pub fn on_menu_closed(&mut self)
        ensures
            !final(self).menu_open,
            final(self).context_ready == old(self).context_ready,
            final(self).device_bound == old(self).device_bound,
    {
        self.menu_open = false;
    }
}

/// The overlay's external draw entry point, kept for interface
/// compatibility: rendering is driven from the present hook each frame,
/// so a direct call has no effect of its own.
pub fn draw() {
}

/// The host-affecting action of the control view, applied through two
/// redundant paths: the shared configuration is updated immediately, and
/// the host's own runtime entry point is invoked for the same effect,
/// because the host may re-read its cap from either source.
#[derive(Clone, Copy, Debug, PartialEq, Eq, Structural)]
pub struct FpsPlan {
    /// Store the new cap in the shared configuration state.
    pub store_config: bool,
    /// Invoke the host's runtime entry point with the new cap.
    pub invoke_host: bool,
    /// The frame-rate cap to apply on both paths.
    pub target_fps: u32,
}

/// Plans the frame-rate unlock. `config_ready` says whether the shared
/// configuration state is initialized; `host_entry_addr` is the resolved
/// address of the host's cap entry point, zero when resolution failed.
/// Each path is taken exactly when its target exists.
pub fn plan_fps_unlock(config_ready: bool, host_entry_addr: usize, target_fps: u32) -> (p: FpsPlan)
    ensures
        p.store_config <==> config_ready,
        p.invoke_host <==> host_entry_addr != 0,
        p.target_fps == target_fps,
{
    FpsPlan { store_config: config_ready, invoke_host: host_entry_addr != 0, target_fps }
}

/// How many frames of a run bind the device, starting from a state whose
/// `device_bound` flag is `bound0`, given which frames could reach a
/// device. Models the transition of `begin_frame`.
pub open spec fn binds_in_run(bound0: bool, avail: Seq<bool>) -> nat
    decreases avail.len(),
{
    if avail.len() == 0 {
        0
    } else {
        (if !bound0 && avail[0] {
            1nat
        } else {
            0nat
        }) + binds_in_run(bound0 || avail[0], avail.drop_first())
    }
}

/// A state with a bound device never binds again.
pub proof fn lemma_bound_device_stays(avail: Seq<bool>)
    ensures
        binds_in_run(true, avail) == 0,
    decreases avail.len(),
{
    if avail.len() > 0 {
        lemma_bound_device_stays(avail.drop_first());
    }
}

/// Law: over any run of frames, a fresh overlay binds its renderer to a
/// device exactly once when any frame can reach a device — the first
/// such frame — and never otherwise.
pub proof fn lemma_device_bound_once(avail: Seq<bool>)
    ensures
        binds_in_run(false, avail) == (if avail.contains(true) {
            1nat
        } else {
            0nat
        }),
    decreases avail.len(),
{
    if avail.len() > 0 {
        if avail[0] {
            lemma_bound_device_stays(avail.drop_first());
            assert(avail.contains(true));
        } else {
            lemma_device_bound_once(avail.drop_first());
            assert(avail.contains(true) <==> avail.drop_first().contains(true)) by {
                if avail.contains(true) {
                    let i = choose|i: int| 0 <= i < avail.len() && avail[i];
                    assert(avail.drop_first()[i - 1]);
                }
                if avail.drop_first().contains(true) {
                    let i = choose|i: int|
                        0 <= i < avail.drop_first().len() && avail.drop_first()[i];
                    assert(avail[i + 1]);
                }
            }
        }
    }
}

} // verus!
