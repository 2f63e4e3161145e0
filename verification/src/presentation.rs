//! The presentation vocabulary Core sends the shell: identifiers, actions,
//! context bars, overlays, profiles, commands and the events the shell sends
//! back. Each type holds, as plain values, what the shell's decisions read;
//! whatever a surface renders travels along untouched in `content`.

use vstd::prelude::*;

verus! {

/// Names one surface Core presents.
#[derive(Debug, PartialEq, Eq)]
pub struct SurfaceId {
    pub text: String,
}

/// Names one interaction (a button, a row, a menu entry) on a surface.
#[derive(Debug, PartialEq, Eq)]
pub struct InteractionId {
    pub text: String,
}

impl View for SurfaceId {
    type V = Seq<char>;

    open spec fn view(&self) -> Seq<char> {
        self.text@
    }
}

impl View for InteractionId {
    type V = Seq<char>;

    open spec fn view(&self) -> Seq<char> {
        self.text@
    }
}

impl SurfaceId {
    pub fn new(text: &str) -> (id: SurfaceId)
        ensures
            id@ == text@,
    {
        SurfaceId { text: String::from_str(text) }
    }

    pub fn as_str(&self) -> (s: &str)
        ensures
            s@ == self@,
    {
        self.text.as_str()
    }

    /// An identical copy.
    pub fn duplicate(&self) -> (id: SurfaceId)
        ensures
            id == *self,
    {
        SurfaceId { text: self.text.clone() }
    }
}

impl InteractionId {
    pub fn new(text: &str) -> (id: InteractionId)
        ensures
            id@ == text@,
    {
        InteractionId { text: String::from_str(text) }
    }

    pub fn as_str(&self) -> (s: &str)
        ensures
            s@ == self@,
    {
        self.text.as_str()
    }

    /// An identical copy.
    pub fn duplicate(&self) -> (id: InteractionId)
        ensures
            id == *self,
    {
        InteractionId { text: self.text.clone() }
    }
}

/// How an action reads: the safe default, or one that destroys something.
#[derive(Clone, Copy, Debug, PartialEq, Eq, Structural)]
pub enum ActionTone {
    Standard,
    Destructive,
}

/// The platform-neutral shortcuts Core can attach to an action.
#[derive(Clone, Copy, Debug, PartialEq, Eq, Structural)]
pub enum StandardShortcut {
    Undo,
    ActivatePrimary,
}

/// One action Core offers.
#[derive(Debug)]
pub struct ActionSpec {
    pub interaction_id: InteractionId,
    pub label: String,
    pub accessibility_label: String,
    pub enabled: bool,
    pub tone: ActionTone,
    pub shortcut: Option<StandardShortcut>,
}

impl ActionSpec {
    /// An identical copy.
    pub fn duplicate(&self) -> (a: ActionSpec)
        ensures
            a == *self,
    {
        ActionSpec {
            interaction_id: self.interaction_id.duplicate(),
            label: self.label.clone(),
            accessibility_label: self.accessibility_label.clone(),
            enabled: self.enabled,
            tone: self.tone,
            shortcut: self.shortcut,
        }
    }
}

/// The four slots of a surface's context bar.
#[derive(Debug)]
pub struct ContextBar {
    pub back: Option<ActionSpec>,
    pub navigation: Option<ActionSpec>,
    pub primary: Option<ActionSpec>,
    pub secondary: Option<ActionSpec>,
}

#[derive(Clone, Copy, Debug, PartialEq, Eq, Structural)]
pub enum OverlayKind {
    Navigation,
    ActionMenu,
}

/// A transient menu of actions anchored to a surface.
#[derive(Debug)]
pub struct OverlaySpec {
    pub kind: OverlayKind,
    pub title: Option<String>,
    pub items: Vec<ActionSpec>,
}

/// What an overlay holds, with its items as a sequence.
pub struct OverlayView {
    pub kind: OverlayKind,
    pub title: Option<String>,
    pub items: Seq<ActionSpec>,
}

impl View for OverlaySpec {
    type V = OverlayView;

    open spec fn view(&self) -> OverlayView {
        OverlayView { kind: self.kind, title: self.title, items: self.items@ }
    }
}

fn duplicate_text(t: &Option<String>) -> (r: Option<String>)
    ensures
        r == *t,
{
    match t {
        Some(s) => Some(s.clone()),
        None => None,
    }
}

impl OverlaySpec {
    /// A copy holding the same kind, title and items.
    pub fn duplicate(&self) -> (o: OverlaySpec)
        ensures
            o@ == self@,
    {
        let mut items: Vec<ActionSpec> = Vec::new();
        let n = self.items.len();
        let mut i: usize = 0;
        while i < n
            invariant
                n == self.items@.len(),
                i <= n,
                items@ == self.items@.subrange(0, i as int),
            decreases n - i,
        {
            items.push(self.items[i].duplicate());
            i = i + 1;
            assert(items@ =~= self.items@.subrange(0, i as int));
        }
        assert(items@ =~= self.items@);
        OverlaySpec { kind: self.kind, title: duplicate_text(&self.title), items }
    }
}

#[derive(Clone, Copy, Debug, PartialEq, Eq, Structural)]
pub enum MotionPreference {
    Full,
    Reduced,
}

#[derive(Clone, Copy, Debug, PartialEq, Eq, Structural)]
pub enum PaneLayout {
    Single,
    Split,
}

#[derive(Clone, Copy, Debug, PartialEq, Eq, Structural)]
pub enum WindowClass {
    Compact,
    Medium,
    Expanded,
}

/// How Core wants the window laid out: one pane or a primary/detail split,
/// and which surface is active.
#[derive(Debug)]
pub struct PresentationProfile {
    pub pane_layout: PaneLayout,
    pub primary_surface: SurfaceId,
    pub detail_surface: Option<SurfaceId>,
    pub active_surface: SurfaceId,
    pub window_class: WindowClass,
}

/// One surface at one revision. `content` is whatever the renderer draws;
/// the shell's decisions read only the identity and the revision.
#[derive(Debug)]
pub struct SurfaceSpec<C> {
    pub surface_id: SurfaceId,
    pub revision: u64,
    pub content: C,
}

/// A command from Core. The presentation commands carry what the shell's
/// state keeps; the others name only what the shell must do.
#[derive(Debug)]
pub enum Command<C> {
    ReplaceSurface { surface: SurfaceSpec<C> },
    SetContextBar { surface_id: SurfaceId, revision: u64, bar: ContextBar },
    SetPresentationProfile { profile: PresentationProfile },
    PresentOverlay { surface_id: SurfaceId, revision: u64, overlay: OverlaySpec },
    DismissOverlay { surface_id: SurfaceId, kind: OverlayKind },
    ShowToast,
    PresentAlert,
    OpenExternalUrl,
    PerformNativeBack,
    /// A hardware or platform request, handled by the exchange dispatcher.
    Platform,
}

/// The events the shell reports back to Core about its surfaces.
#[derive(Debug, PartialEq, Eq)]
pub enum Event {
    SurfaceActivated { surface_id: SurfaceId },
    ActionActivated { surface_id: SurfaceId, interaction_id: InteractionId },
    BackRequested { surface_id: SurfaceId },
    OverlayDismissed { surface_id: SurfaceId, kind: OverlayKind },
    /// The window's size, the ways the user can give input, and the motion
    /// preference.
    PresentationEnvironmentChanged {
        available_width: u32,
        available_height: u32,
        input_modes: Vec<InputMode>,
        motion: MotionPreference,
    },
}

/// A way the user gives input.
#[derive(Clone, Copy, Debug, PartialEq, Eq, Structural)]
pub enum InputMode {
    Keyboard,
    Pointer,
    Touch,
}

} // verus!
