//! The overlay compositor's per-target state machine.
//!
//! Each overlay target cycles through four phases every frame: extraction
//! finds (or fails to find) the overlay child under an active camera and
//! synthesizes the secondary view; the secondary pass clears the offscreen
//! image to transparent and redraws the lit scene into it; the primary pass
//! then composites the image over the already-drawn geometry with
//! alpha-over blending. Nothing accumulates across frames — the next
//! extraction starts the cycle again.

use vstd::prelude::*;

verus! {

/// Where an overlay target stands within the current frame.
#[derive(Clone, Copy, Debug, PartialEq, Eq, Structural)]
pub enum OverlayPhase {
    /// No secondary view is registered for the target.
    Idle,
    /// The overlay child was found and a secondary camera view pointing at
    /// the target image has been synthesized.
    Extracted,
    /// The secondary pass has drawn the lighting into the offscreen image.
    Rendered,
    /// The primary pass has composited the offscreen image over the lit
    /// scene.
    Composited,
}

/// A stage tick the host reports to the compositor.
#[derive(Clone, Copy, Debug, PartialEq, Eq, Structural)]
pub enum OverlayEvent {
    /// The extract stage ran; `found` says whether an overlay child stood
    /// under an active primary camera this frame.
    TickExtract { found: bool },
    /// The host is ready to run the secondary render pass.
    TickRenderSecondary,
    /// The host is ready to run the composite step of the primary pass.
    TickComposite,
}

/// What the host must perform for a transition.
#[derive(Clone, Copy, Debug, PartialEq, Eq, Structural)]
pub enum OverlayAction {
    /// Nothing: the stage is skipped this frame.
    Nothing,
    /// Synthesize the secondary camera view: it targets the overlay image,
    /// inherits the primary camera's transform and projection, and runs at
    /// one lower render priority.
    SynthesizeView,
    /// Clear the offscreen image to transparent black, then draw the
    /// frame's lighting into it.
    RenderOffscreen,
    /// Draw one full-view quad sampling the offscreen image over the
    /// primary view, blended alpha-over.
    CompositeQuad,
}

/// The compositor's transition function: extraction restarts the cycle
/// every frame; the secondary pass runs only once extracted; compositing
/// runs only once rendered; any other tick is skipped in place.
pub open spec fn overlay_step(phase: OverlayPhase, event: OverlayEvent) -> (
    OverlayPhase,
    OverlayAction,
) {
    match event {
        OverlayEvent::TickExtract { found } => {
            if found {
                (OverlayPhase::Extracted, OverlayAction::SynthesizeView)
            } else {
                (OverlayPhase::Idle, OverlayAction::Nothing)
            }
        },
        OverlayEvent::TickRenderSecondary => {
            if phase is Extracted {
                (OverlayPhase::Rendered, OverlayAction::RenderOffscreen)
            } else {
                (phase, OverlayAction::Nothing)
            }
        },
        OverlayEvent::TickComposite => {
            if phase is Rendered {
                (OverlayPhase::Composited, OverlayAction::CompositeQuad)
            } else {
                (phase, OverlayAction::Nothing)
            }
        },
    }
}

/// Advances one overlay target by one stage tick, returning the next phase
/// and the work the host must perform, exactly as `overlay_step` states.
pub fn step_overlay(phase: OverlayPhase, event: OverlayEvent) -> (r: (OverlayPhase, OverlayAction))
    ensures
        r == overlay_step(phase, event),
        r.1 == OverlayAction::CompositeQuad <==> phase is Rendered && event
            is TickComposite,
        r.1 == OverlayAction::RenderOffscreen <==> phase is Extracted && event
            is TickRenderSecondary,
{
    match event {
        OverlayEvent::TickExtract { found } => {
            if found {
                (OverlayPhase::Extracted, OverlayAction::SynthesizeView)
            } else {
                (OverlayPhase::Idle, OverlayAction::Nothing)
            }
        },
        OverlayEvent::TickRenderSecondary => {
            match phase {
                OverlayPhase::Extracted => (OverlayPhase::Rendered, OverlayAction::RenderOffscreen),
                _ => (phase, OverlayAction::Nothing),
            }
        },
        OverlayEvent::TickComposite => {
            match phase {
                OverlayPhase::Rendered => (OverlayPhase::Composited, OverlayAction::CompositeQuad),
                _ => (phase, OverlayAction::Nothing),
            }
        },
    }
}

/// The compositor never composites an image it has not rendered this
/// frame: within any tick sequence, a composite action is only ever issued
/// from the `Rendered` phase, which only the offscreen render reaches.
pub proof fn lemma_composite_needs_render(phase: OverlayPhase, event: OverlayEvent)
    ensures
        overlay_step(phase, event).1 == OverlayAction::CompositeQuad ==> phase is Rendered,
        overlay_step(phase, event).0 is Rendered ==> (phase is Rendered && !(event
            is TickExtract)) || overlay_step(phase, event).1 == OverlayAction::RenderOffscreen,
{
}

} // verus!
