use vauchi_gtk::contextual_surface::{
    context_controls, interaction_events, interaction_for_shortcut, GtkContextRole,
    GtkOverlayTransition, GtkPresentationState,
};
use vauchi_gtk::presentation::{
    ActionSpec, ActionTone, Command, ContextBar, Event, InteractionId, MotionPreference,
    OverlayKind, OverlaySpec, PaneLayout, PresentationProfile, StandardShortcut, SurfaceId,
    SurfaceSpec, WindowClass,
};

fn action(id: &str, shortcut: Option<StandardShortcut>) -> ActionSpec {
    ActionSpec {
        interaction_id: InteractionId::new(id),
        label: id.to_uppercase(),
        accessibility_label: id.to_string(),
        enabled: true,
        tone: ActionTone::Standard,
        shortcut,
    }
}

fn surface(id: &str, revision: u64, content: &'static str) -> Command<&'static str> {
    Command::ReplaceSurface {
        surface: SurfaceSpec {
            surface_id: SurfaceId::new(id),
            revision,
            content,
        },
    }
}

fn bar(primary: &str) -> ContextBar {
    ContextBar {
        back: Some(action("back", None)),
        navigation: None,
        primary: Some(action(primary, Some(StandardShortcut::ActivatePrimary))),
        secondary: Some(action("more", Some(StandardShortcut::Undo))),
    }
}

fn set_bar(id: &str, revision: u64, primary: &str) -> Command<&'static str> {
    Command::SetContextBar {
        surface_id: SurfaceId::new(id),
        revision,
        bar: bar(primary),
    }
}

fn overlay(id: &str, revision: u64, kind: OverlayKind) -> Command<&'static str> {
    Command::PresentOverlay {
        surface_id: SurfaceId::new(id),
        revision,
        overlay: OverlaySpec {
            kind,
            title: Some("Menu".to_string()),
            items: vec![action("first", None), action("second", None)],
        },
    }
}

fn profile(layout: PaneLayout, primary: &str, detail: Option<&str>, active: &str) -> Command<&'static str> {
    Command::SetPresentationProfile {
        profile: PresentationProfile {
            pane_layout: layout,
            primary_surface: SurfaceId::new(primary),
            detail_surface: detail.map(SurfaceId::new),
            active_surface: SurfaceId::new(active),
            window_class: WindowClass::Medium,
        },
    }
}

#[test]
fn controls_follow_bar_order_and_only_primary_is_emphasized() {
    let bar = bar("save");
    let controls = context_controls(&bar);
    let roles: Vec<_> = controls.iter().map(|c| c.role).collect();
    assert_eq!(
        roles,
        vec![GtkContextRole::Back, GtkContextRole::Primary, GtkContextRole::Secondary]
    );
    let emphasized: Vec<_> = controls.iter().map(|c| c.emphasized).collect();
    assert_eq!(emphasized, vec![false, true, false]);
    assert_eq!(controls[1].action.interaction_id.as_str(), "save");
}

#[test]
fn a_shortcut_resolves_to_the_first_control_declaring_it() {
    let bar = bar("save");
    assert_eq!(
        interaction_for_shortcut(&bar, StandardShortcut::ActivatePrimary).map(|id| id.as_str()),
        Some("save")
    );
    assert_eq!(
        interaction_for_shortcut(&bar, StandardShortcut::Undo).map(|id| id.as_str()),
        Some("more")
    );
    let bare = ContextBar { back: None, navigation: None, primary: None, secondary: None };
    assert!(interaction_for_shortcut(&bare, StandardShortcut::Undo).is_none());
}

#[test]
fn overlays_animate_by_kind_and_motion() {
    assert_eq!(
        GtkOverlayTransition::for_overlay(OverlayKind::Navigation, MotionPreference::Full),
        GtkOverlayTransition::NavigationSlide
    );
    assert_eq!(
        GtkOverlayTransition::for_overlay(OverlayKind::Navigation, MotionPreference::Reduced),
        GtkOverlayTransition::NavigationReveal
    );
    assert_eq!(
        GtkOverlayTransition::for_overlay(OverlayKind::ActionMenu, MotionPreference::Full),
        GtkOverlayTransition::ActionScale
    );
    assert_eq!(
        GtkOverlayTransition::for_overlay(OverlayKind::ActionMenu, MotionPreference::Reduced),
        GtkOverlayTransition::ActionCrossfade
    );
}

#[test]
fn an_older_revision_of_a_surface_is_refused() {
    let mut state = GtkPresentationState::new();
    assert!(state.apply(surface("home", 5, "home v5")));
    assert!(!state.apply(surface("home", 4, "home v4")));
    assert_eq!(state.surface().map(|s| s.content), Some("home v5"));
    assert!(state.apply(surface("home", 5, "home v5 again")));
    assert_eq!(state.surface().map(|s| s.content), Some("home v5 again"));
}

#[test]
fn a_context_bar_is_kept_only_for_the_current_revision() {
    let mut state = GtkPresentationState::new();
    state.apply(surface("home", 2, "home"));
    assert!(!state.apply(set_bar("home", 1, "stale")));
    assert!(!state.apply(set_bar("elsewhere", 2, "unknown")));
    assert!(state.context_bar().is_none());
    assert!(state.apply(set_bar("home", 2, "save")));
    let (id, bar) = state.context_bar().expect("bar for the active surface");
    assert_eq!(id.as_str(), "home");
    assert_eq!(bar.primary.as_ref().unwrap().interaction_id.as_str(), "save");
}

#[test]
fn replacing_a_surface_drops_its_bar_and_overlay() {
    let mut state = GtkPresentationState::new();
    state.apply(surface("home", 1, "home"));
    state.apply(set_bar("home", 1, "save"));
    state.apply(overlay("home", 1, OverlayKind::ActionMenu));
    assert!(state.overlay().is_some());
    state.apply(surface("home", 2, "home v2"));
    assert!(state.context_bar().is_none());
    assert!(state.overlay().is_none());
}

#[test]
fn a_dismissal_closes_only_an_overlay_of_its_kind() {
    let mut state = GtkPresentationState::new();
    state.apply(surface("home", 1, "home"));
    state.apply(overlay("home", 1, OverlayKind::Navigation));
    assert!(!state.apply(Command::DismissOverlay {
        surface_id: SurfaceId::new("home"),
        kind: OverlayKind::ActionMenu,
    }));
    assert!(state.overlay().is_some());
    assert!(state.apply(Command::DismissOverlay {
        surface_id: SurfaceId::new("home"),
        kind: OverlayKind::Navigation,
    }));
    assert!(state.overlay().is_none());
    assert!(!state.apply(Command::DismissOverlay {
        surface_id: SurfaceId::new("home"),
        kind: OverlayKind::Navigation,
    }));
}

#[test]
fn taking_the_overlay_hands_it_back_once() {
    let mut state = GtkPresentationState::new();
    state.apply(surface("home", 1, "home"));
    state.apply(overlay("home", 1, OverlayKind::ActionMenu));
    let (id, taken) = state.take_overlay().expect("open overlay");
    assert_eq!(id.as_str(), "home");
    assert_eq!(taken.kind, OverlayKind::ActionMenu);
    assert_eq!(taken.title.as_deref(), Some("Menu"));
    assert_eq!(taken.items.len(), 2);
    assert_eq!(taken.items[1].interaction_id.as_str(), "second");
    assert!(state.take_overlay().is_none());
}

#[test]
fn without_a_profile_the_last_replaced_surface_is_shown() {
    let mut state = GtkPresentationState::new();
    assert!(state.visible_surface_ids().is_empty());
    state.apply(surface("home", 1, "home"));
    state.apply(surface("detail", 1, "detail"));
    let ids: Vec<_> = state.visible_surface_ids().iter().map(|id| id.as_str().to_string()).collect();
    assert_eq!(ids, vec!["detail"]);
    assert_eq!(state.surface().map(|s| s.content), Some("detail"));
}

#[test]
fn a_split_profile_shows_primary_then_detail_when_held() {
    let mut state = GtkPresentationState::new();
    state.apply(surface("list", 1, "list"));
    assert!(state.apply(profile(PaneLayout::Split, "list", Some("card"), "card")));
    let contents: Vec<_> = state.visible_surfaces().iter().map(|s| s.content).collect();
    assert_eq!(contents, vec!["list"]);
    state.apply(surface("card", 1, "card"));
    let contents: Vec<_> = state.visible_surfaces().iter().map(|s| s.content).collect();
    assert_eq!(contents, vec!["list", "card"]);
}

#[test]
fn a_single_profile_shows_the_active_surface_or_else_the_primary() {
    let mut state = GtkPresentationState::new();
    state.apply(surface("list", 1, "list"));
    state.apply(profile(PaneLayout::Single, "list", None, "card"));
    let contents: Vec<_> = state.visible_surfaces().iter().map(|s| s.content).collect();
    assert_eq!(contents, vec!["list"]);
    state.apply(surface("card", 1, "card"));
    let contents: Vec<_> = state.visible_surfaces().iter().map(|s| s.content).collect();
    assert_eq!(contents, vec!["card"]);
    assert_eq!(state.profile().map(|p| p.window_class), Some(WindowClass::Medium));
}

#[test]
fn activation_reports_the_bar_surface_then_the_action() {
    let mut state = GtkPresentationState::new();
    let id = InteractionId::new("save");
    assert!(state.activation_events(&id).is_empty());
    state.apply(surface("home", 1, "home"));
    state.apply(set_bar("home", 1, "save"));
    let events = state.activation_events(&id);
    assert_eq!(
        events,
        vec![
            Event::SurfaceActivated { surface_id: SurfaceId::new("home") },
            Event::ActionActivated {
                surface_id: SurfaceId::new("home"),
                interaction_id: InteractionId::new("save"),
            },
        ]
    );
}

#[test]
fn other_commands_are_accepted_and_change_nothing() {
    let mut state = GtkPresentationState::new();
    state.apply(surface("home", 1, "home"));
    assert!(state.apply(Command::ShowToast));
    assert!(state.apply(Command::Platform));
    assert_eq!(state.surface_by_id(&SurfaceId::new("home")).map(|s| s.revision), Some(1));
    assert!(state.surface_by_id(&SurfaceId::new("nowhere")).is_none());
}

#[test]
fn back_activates_the_bar_surface_then_asks_it_to_go_back() {
    let mut state = GtkPresentationState::new();
    assert!(state.back_events().is_empty());
    assert!(state.apply(surface("home", 1, "home")));
    assert!(state.back_events().is_empty());
    assert!(state.apply(set_bar("home", 1, "save")));
    assert_eq!(
        state.back_events(),
        vec![
            Event::SurfaceActivated { surface_id: SurfaceId::new("home") },
            Event::BackRequested { surface_id: SurfaceId::new("home") },
        ]
    );
}

#[test]
fn a_shortcut_activates_the_control_declaring_it() {
    let mut state = GtkPresentationState::new();
    assert!(state.shortcut_events(StandardShortcut::Undo).is_empty());
    assert!(state.apply(surface("home", 1, "home")));
    assert!(state.apply(set_bar("home", 1, "save")));
    assert_eq!(
        state.shortcut_events(StandardShortcut::ActivatePrimary),
        interaction_events(&SurfaceId::new("home"), &InteractionId::new("save"))
    );
    assert_eq!(
        state.shortcut_events(StandardShortcut::Undo),
        vec![
            Event::SurfaceActivated { surface_id: SurfaceId::new("home") },
            Event::ActionActivated {
                surface_id: SurfaceId::new("home"),
                interaction_id: InteractionId::new("more"),
            },
        ]
    );
}

#[test]
fn a_command_delivered_twice_acts_once() {
    let mut state = GtkPresentationState::new();
    assert!(state.apply(surface("home", 1, "home")));
    assert!(state.apply(set_bar("home", 1, "save")));
    assert!(state.apply(overlay("home", 1, OverlayKind::ActionMenu)));
    assert!(state.apply(overlay("home", 1, OverlayKind::ActionMenu)));
    assert_eq!(state.overlay().map(|(id, o)| (id.as_str().to_string(), o.items.len())), Some(("home".to_string(), 2)));
    let dismiss = || Command::DismissOverlay { surface_id: SurfaceId::new("home"), kind: OverlayKind::ActionMenu };
    assert!(state.apply(dismiss()));
    assert!(!state.apply(dismiss()));
    assert!(state.overlay().is_none());
    assert!(state.context_bar().is_some());
    assert!(state.apply(surface("home", 1, "home")));
    assert!(state.apply(surface("home", 1, "home")));
    assert!(state.context_bar().is_none());
    assert_eq!(state.visible_surface_ids(), vec![SurfaceId::new("home")]);
}
