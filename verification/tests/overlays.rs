use vauchi_gtk::overlays::{overlay_presentation, OverlayPresentation, OverlaySession};
use vauchi_gtk::presentation::{Event, InteractionId, OverlayKind, SurfaceId};

#[test]
fn navigation_opens_as_a_modal_window() {
    assert_eq!(
        overlay_presentation(OverlayKind::Navigation, false),
        Some(OverlayPresentation::ModalWindow)
    );
    assert_eq!(
        overlay_presentation(OverlayKind::Navigation, true),
        Some(OverlayPresentation::ModalWindow)
    );
}

#[test]
fn action_menu_needs_its_anchor() {
    assert_eq!(
        overlay_presentation(OverlayKind::ActionMenu, true),
        Some(OverlayPresentation::AnchoredPopover)
    );
    assert_eq!(overlay_presentation(OverlayKind::ActionMenu, false), None);
}

#[test]
fn closing_an_untouched_overlay_dismisses_it() {
    let session = OverlaySession::new(SurfaceId::new("home"), OverlayKind::ActionMenu);
    assert_eq!(
        session.close(),
        Some(Event::OverlayDismissed {
            surface_id: SurfaceId::new("home"),
            kind: OverlayKind::ActionMenu,
        })
    );
}

#[test]
fn picking_an_item_reports_it_and_closing_then_reports_nothing() {
    let mut session = OverlaySession::new(SurfaceId::new("home"), OverlayKind::Navigation);
    let events = session.pick_item(&InteractionId::new("contacts"));
    assert_eq!(
        events,
        vec![
            Event::SurfaceActivated { surface_id: SurfaceId::new("home") },
            Event::ActionActivated {
                surface_id: SurfaceId::new("home"),
                interaction_id: InteractionId::new("contacts"),
            },
        ]
    );
    assert_eq!(session.close(), None);
}
