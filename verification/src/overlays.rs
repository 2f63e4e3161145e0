//! The lifecycle of an overlay on screen: how it is shown, and what it
//! answers Core when the user picks an item or closes it.

use vstd::prelude::*;

use crate::contextual_surface::{activation_spec, interaction_events};
use crate::presentation::{Event, InteractionId, OverlayKind, SurfaceId};

verus! {

/// How an overlay is put on screen.
#[derive(Clone, Copy, Debug, PartialEq, Eq, Structural)]
pub enum OverlayPresentation {
    /// A modal window over the main window.
    ModalWindow,
    /// A popover anchored to the control that asked for it.
    AnchoredPopover,
}

/// Navigation opens as a modal window; an action menu opens as a popover,
/// and only when the control that asked for it can still be found.
pub fn overlay_presentation(kind: OverlayKind, has_anchor: bool) -> (p: Option<OverlayPresentation>)
    ensures
        p == match kind {
            OverlayKind::Navigation => Some(OverlayPresentation::ModalWindow),
            OverlayKind::ActionMenu => if has_anchor {
                Some(OverlayPresentation::AnchoredPopover)
            } else {
                None
            },
        },
{
    match kind {
        OverlayKind::Navigation => Some(OverlayPresentation::ModalWindow),
        OverlayKind::ActionMenu => if has_anchor {
            Some(OverlayPresentation::AnchoredPopover)
        } else {
            None
        },
    }
}

/// An overlay on screen for one surface, and whether the user has picked
/// one of its items.
pub struct OverlaySession {
    surface_id: SurfaceId,
    kind: OverlayKind,
    chosen: bool,
}

/// What a session is: the surface, the overlay's kind, whether an item was
/// picked.
pub struct SessionView {
    pub surface_id: SurfaceId,
    pub kind: OverlayKind,
    pub chosen: bool,
}

impl View for OverlaySession {
    type V = SessionView;

    closed spec fn view(&self) -> SessionView {
        SessionView { surface_id: self.surface_id, kind: self.kind, chosen: self.chosen }
    }
}

/// What closing an overlay reports: nothing after an item was picked, else
/// its dismissal.
pub open spec fn close_spec(s: SessionView) -> Option<Event> {
    if s.chosen {
        None
    } else {
        Some(Event::OverlayDismissed { surface_id: s.surface_id, kind: s.kind })
    }
}

impl OverlaySession {
    /// An overlay just shown, with nothing picked.
    pub fn new(surface_id: SurfaceId, kind: OverlayKind) -> (s: Self)
        ensures
            s@.surface_id == surface_id,
            s@.kind == kind,
            !s@.chosen,
    {
        OverlaySession { surface_id, kind, chosen: false }
    }

    /// The user picked the item `interaction_id`: the session remembers it,
    /// and the item's activation is reported on the overlay's surface.
    pub fn pick_item(&mut self, interaction_id: &InteractionId) -> (events: Vec<Event>)
        ensures
            final(self)@.surface_id == old(self)@.surface_id,
            final(self)@.kind == old(self)@.kind,
            final(self)@.chosen,
            events@ == activation_spec(old(self)@.surface_id, *interaction_id),
    {
        self.chosen = true;
        interaction_events(&self.surface_id, interaction_id)
    }

    /// The overlay closed: its dismissal is reported unless an item was
    /// picked.
    pub fn close(&self) -> (event: Option<Event>)
        ensures
            event == close_spec(self@),
    {
        if self.chosen {
            None
        } else {
            Some(Event::OverlayDismissed { surface_id: self.surface_id.duplicate(), kind: self.kind })
        }
    }
}

/// An overlay answers Core once: closing it after an item was picked reports
/// nothing, and closing it with nothing picked reports its own dismissal.
pub proof fn law_overlay_answers_once(s: SessionView)
    ensures
        close_spec(SessionView { chosen: true, ..s }) is None,
        close_spec(SessionView { chosen: false, ..s }) == Some(
            Event::OverlayDismissed { surface_id: s.surface_id, kind: s.kind },
        ),
{
}

} // verus!
