//! Humble state adapter for Core presentation commands: which surfaces,
//! context bars, overlays and profile the shell currently holds, and which
//! of them it shows.

use vstd::prelude::*;
use vstd::hash_map::StringHashMap;

use crate::presentation::{
    ActionSpec, Command, ContextBar, Event, InteractionId, MotionPreference, OverlayKind,
    OverlaySpec, OverlayView, PaneLayout, PresentationProfile, StandardShortcut, SurfaceId,
    SurfaceSpec,
};

verus! {

/// The slot of the context bar a control came from.
#[derive(Clone, Copy, Debug, PartialEq, Eq, Structural)]
pub enum GtkContextRole {
    Back,
    Navigation,
    Primary,
    Secondary,
}

/// One control to draw in the context bar.
#[derive(Clone, Copy, Debug)]
pub struct GtkContextControl<'a> {
    pub role: GtkContextRole,
    pub action: &'a ActionSpec,
    pub emphasized: bool,
}

/// A slot's action, if it holds one, tagged with the slot.
pub open spec fn slot(role: GtkContextRole, action: Option<ActionSpec>) -> Seq<
    (GtkContextRole, ActionSpec),
> {
    match action {
        Some(a) => seq![(role, a)],
        None => seq![],
    }
}

/// The filled slots of a context bar, in the order Back, Navigation,
/// Primary, Secondary.
pub open spec fn bar_slots(bar: ContextBar) -> Seq<(GtkContextRole, ActionSpec)> {
    slot(GtkContextRole::Back, bar.back) + slot(GtkContextRole::Navigation, bar.navigation) + slot(
        GtkContextRole::Primary,
        bar.primary,
    ) + slot(GtkContextRole::Secondary, bar.secondary)
}

/// A control as the slot it draws.
pub open spec fn control_slot(c: GtkContextControl) -> (GtkContextRole, ActionSpec) {
    (c.role, *c.action)
}

fn push_slot<'a>(
    controls: &mut Vec<GtkContextControl<'a>>,
    role: GtkContextRole,
    action: &'a Option<ActionSpec>,
)
    ensures
        final(controls)@.map_values(|c: GtkContextControl| control_slot(c)) == old(controls)@.map_values(
            |c: GtkContextControl| control_slot(c),
        ) + slot(role, *action),
        forall|i: int|
            0 <= i < old(controls)@.len() ==> final(controls)@[i] == old(controls)@[i],
        forall|i: int|
            old(controls)@.len() <= i < final(controls)@.len() ==> (#[trigger] final(controls)@[i]).emphasized
                == (role == GtkContextRole::Primary),
{
    match action {
        Some(a) => {
            controls.push(
                GtkContextControl { role, action: a, emphasized: role == GtkContextRole::Primary },
            );
        },
        None => {},
    }
    assert(final(controls)@.map_values(|c: GtkContextControl| control_slot(c)) =~= old(controls)@.map_values(
        |c: GtkContextControl| control_slot(c),
    ) + slot(role, *action));
}

/// The controls of a context bar, one per filled slot in bar order; only the
/// primary control is emphasized.
pub fn context_controls(bar: &ContextBar) -> (controls: Vec<GtkContextControl<'_>>)
    ensures
        controls@.map_values(|c: GtkContextControl| control_slot(c)) == bar_slots(*bar),
        forall|i: int|
            0 <= i < controls@.len() ==> (#[trigger] controls@[i]).emphasized == (
            controls@[i].role == GtkContextRole::Primary),
{
    let mut controls: Vec<GtkContextControl<'_>> = Vec::new();
    push_slot(&mut controls, GtkContextRole::Back, &bar.back);
    push_slot(&mut controls, GtkContextRole::Navigation, &bar.navigation);
    push_slot(&mut controls, GtkContextRole::Primary, &bar.primary);
    push_slot(&mut controls, GtkContextRole::Secondary, &bar.secondary);
    assert(controls@.map_values(|c: GtkContextControl| control_slot(c)) =~= bar_slots(*bar));
    proof {
        assert forall|i: int| 0 <= i < controls@.len() implies (
        #[trigger] controls@[i]).emphasized == (controls@[i].role == GtkContextRole::Primary) by {
            assert(controls@.map_values(|c: GtkContextControl| control_slot(c))[i]
                == control_slot(controls@[i]));
        }
    }
    controls
}

/// The position of the first slot whose action answers `shortcut`.
pub open spec fn first_with_shortcut(
    slots: Seq<(GtkContextRole, ActionSpec)>,
    shortcut: StandardShortcut,
) -> Option<int>
    decreases slots.len(),
{
    if slots.len() == 0 {
        None
    } else if slots[0].1.shortcut == Some(shortcut) {
        Some(0)
    } else {
        match first_with_shortcut(slots.drop_first(), shortcut) {
            Some(i) => Some(i + 1),
            None => None,
        }
    }
}

proof fn lemma_first_with_shortcut_step(
    slots: Seq<(GtkContextRole, ActionSpec)>,
    shortcut: StandardShortcut,
    k: int,
)
    requires
        0 <= k < slots.len(),
        forall|j: int| 0 <= j < k ==> (#[trigger] slots[j]).1.shortcut != Some(shortcut),
    ensures
        first_with_shortcut(slots, shortcut) == (if slots[k].1.shortcut == Some(shortcut) {
            Some(k)
        } else {
            match first_with_shortcut(slots.subrange(k + 1, slots.len() as int), shortcut) {
                Some(i) => Some(i + k + 1),
                None => None,
            }
        }),
    decreases k,
{
    if k > 0 {
        let rest = slots.drop_first();
        assert forall|j: int| 0 <= j < k - 1 implies (#[trigger] rest[j]).1.shortcut != Some(
            shortcut,
        ) by {
            assert(rest[j] == slots[j + 1]);
        }
        lemma_first_with_shortcut_step(rest, shortcut, k - 1);
        assert(rest.subrange(k, rest.len() as int) =~= slots.subrange(k + 1, slots.len() as int));
        assert(slots[0].1.shortcut != Some(shortcut));
    } else {
        assert(slots.drop_first() =~= slots.subrange(1, slots.len() as int));
    }
}

/// The interaction of the first context-bar control, in bar order, that
/// declares `shortcut`; `None` when no control does.
pub fn interaction_for_shortcut(bar: &ContextBar, shortcut: StandardShortcut) -> (id: Option<
    &InteractionId,
>)
    ensures
        match first_with_shortcut(bar_slots(*bar), shortcut) {
            Some(i) => id == Some(&bar_slots(*bar)[i].1.interaction_id),
            None => id is None,
        },
{
    let controls = context_controls(bar);
    let ghost slots = bar_slots(*bar);
    let n = controls.len();
    let mut i: usize = 0;
    while i < n
        invariant
            n == controls@.len(),
            controls@.map_values(|c: GtkContextControl| control_slot(c)) == slots,
            slots == bar_slots(*bar),
            i <= n,
            forall|j: int| 0 <= j < i ==> (#[trigger] slots[j]).1.shortcut != Some(shortcut),
        decreases n - i,
    {
        let control = controls[i];
        assert(slots[i as int] == control_slot(controls@[i as int]));
        if control.action.shortcut == Some(shortcut) {
            proof {
                lemma_first_with_shortcut_step(slots, shortcut, i as int);
            }
            return Some(&control.action.interaction_id);
        }
        i = i + 1;
    }
    proof {
        lemma_no_shortcut(slots, shortcut);
    }
    None
}

proof fn lemma_no_shortcut(slots: Seq<(GtkContextRole, ActionSpec)>, shortcut: StandardShortcut)
    requires
        forall|j: int| 0 <= j < slots.len() ==> (#[trigger] slots[j]).1.shortcut != Some(shortcut),
    ensures
        first_with_shortcut(slots, shortcut) is None,
    decreases slots.len(),
{
    if slots.len() > 0 {
        let rest = slots.drop_first();
        assert forall|j: int| 0 <= j < rest.len() implies (#[trigger] rest[j]).1.shortcut != Some(
            shortcut,
        ) by {
            assert(rest[j] == slots[j + 1]);
        }
        lemma_no_shortcut(rest, shortcut);
        assert(slots[0].1.shortcut != Some(shortcut));
    }
}

/// How an overlay animates in.
#[derive(Clone, Copy, Debug, PartialEq, Eq, Structural)]
pub enum GtkOverlayTransition {
    NavigationSlide,
    NavigationReveal,
    ActionScale,
    ActionCrossfade,
}

impl GtkOverlayTransition {
    /// Navigation slides, or only reveals under reduced motion; an action
    /// menu scales in, or cross-fades under reduced motion.
    pub fn for_overlay(kind: OverlayKind, motion: MotionPreference) -> (t: Self)
        ensures
            t == (match (kind, motion) {
                (OverlayKind::Navigation, MotionPreference::Full) => GtkOverlayTransition::NavigationSlide,
                (OverlayKind::Navigation, MotionPreference::Reduced) => GtkOverlayTransition::NavigationReveal,
                (OverlayKind::ActionMenu, MotionPreference::Full) => GtkOverlayTransition::ActionScale,
                (OverlayKind::ActionMenu, MotionPreference::Reduced) => GtkOverlayTransition::ActionCrossfade,
            }),
    {
        match (kind, motion) {
            (OverlayKind::Navigation, MotionPreference::Full) => GtkOverlayTransition::NavigationSlide,
            (OverlayKind::Navigation, MotionPreference::Reduced) => GtkOverlayTransition::NavigationReveal,
            (OverlayKind::ActionMenu, MotionPreference::Full) => GtkOverlayTransition::ActionScale,
            (OverlayKind::ActionMenu, MotionPreference::Reduced) => GtkOverlayTransition::ActionCrossfade,
        }
    }
}

/// What the presentation state holds, keyed by the characters of each
/// surface id.
#[verifier::reject_recursive_types(C)]
pub struct PresentationModel<C> {
    pub surfaces: Map<Seq<char>, SurfaceSpec<C>>,
    pub context_bars: Map<Seq<char>, (u64, ContextBar)>,
    pub profile: Option<PresentationProfile>,
    pub overlays: Map<Seq<char>, (u64, OverlaySpec)>,
    pub last_surface: Option<SurfaceId>,
}

/// The shell's projection of Core's presentation commands.
#[verifier::reject_recursive_types(C)]
pub struct GtkPresentationState<C> {
    surfaces: StringHashMap<SurfaceSpec<C>>,
    context_bars: StringHashMap<(u64, ContextBar)>,
    profile: Option<PresentationProfile>,
    overlays: StringHashMap<(u64, OverlaySpec)>,
    last_surface: Option<SurfaceId>,
}

impl<C> View for GtkPresentationState<C> {
    type V = PresentationModel<C>;

    closed spec fn view(&self) -> PresentationModel<C> {
        PresentationModel {
            surfaces: self.surfaces@,
            context_bars: self.context_bars@,
            profile: self.profile,
            overlays: self.overlays@,
            last_surface: self.last_surface,
        }
    }
}

/// Each surface is filed under its own id; every context bar and overlay
/// belongs to a held surface at that surface's current revision; the last
/// replaced surface is held.
pub open spec fn model_wf<C>(m: PresentationModel<C>) -> bool {
    &&& forall|k: Seq<char>| #[trigger]
        m.surfaces.contains_key(k) ==> m.surfaces[k].surface_id@ == k
    &&& forall|k: Seq<char>| #[trigger]
        m.context_bars.contains_key(k) ==> m.surfaces.contains_key(k)
            && m.context_bars[k].0 == m.surfaces[k].revision
    &&& forall|k: Seq<char>| #[trigger]
        m.overlays.contains_key(k) ==> m.surfaces.contains_key(k) && m.overlays[k].0
            == m.surfaces[k].revision
    &&& m.last_surface matches Some(id) ==> m.surfaces.contains_key(id@)
}

/// Whether `id` names a held surface at exactly `revision`.
pub open spec fn at_current_revision<C>(m: PresentationModel<C>, id: Seq<char>, revision: u64) -> bool {
    m.surfaces.contains_key(id) && m.surfaces[id].revision == revision
}

/// The state after one command, and whether the shell accepted it: a
/// surface replaces the held one unless it is older; a context bar or an
/// overlay is taken only for the current revision of a held surface; a
/// dismissal closes only an open overlay of the same kind; anything else is
/// accepted and changes nothing here.
pub open spec fn apply_spec<C>(m: PresentationModel<C>, command: Command<C>) -> (
    PresentationModel<C>,
    bool,
) {
    match command {
        Command::ReplaceSurface { surface } => {
            let k = surface.surface_id@;
            if !m.surfaces.contains_key(k) || surface.revision >= m.surfaces[k].revision {
                (
                    PresentationModel {
                        surfaces: m.surfaces.insert(k, surface),
                        context_bars: m.context_bars.remove(k),
                        profile: m.profile,
                        overlays: m.overlays.remove(k),
                        last_surface: Some(surface.surface_id),
                    },
                    true,
                )
            } else {
                (m, false)
            }
        },
        Command::SetContextBar { surface_id, revision, bar } => {
            if at_current_revision(m, surface_id@, revision) {
                (
                    PresentationModel {
                        context_bars: m.context_bars.insert(surface_id@, (revision, bar)),
                        ..m
                    },
                    true,
                )
            } else {
                (m, false)
            }
        },
        Command::SetPresentationProfile { profile } => (
            PresentationModel { profile: Some(profile), ..m },
            true,
        ),
        Command::PresentOverlay { surface_id, revision, overlay } => {
            if at_current_revision(m, surface_id@, revision) {
                (
                    PresentationModel {
                        overlays: m.overlays.insert(surface_id@, (revision, overlay)),
                        ..m
                    },
                    true,
                )
            } else {
                (m, false)
            }
        },
        Command::DismissOverlay { surface_id, kind } => {
            if m.overlays.contains_key(surface_id@) && m.overlays[surface_id@].1.kind == kind {
                (PresentationModel { overlays: m.overlays.remove(surface_id@), ..m }, true)
            } else {
                (m, false)
            }
        },
        _ => (m, true),
    }
}

/// The surface the shell treats as active: the profile's, when it is held,
/// else the one most recently replaced.
pub open spec fn active_surface_spec<C>(m: PresentationModel<C>) -> Option<SurfaceId> {
    match m.profile {
        Some(p) => if m.surfaces.contains_key(p.active_surface@) {
            Some(p.active_surface)
        } else {
            m.last_surface
        },
        None => m.last_surface,
    }
}

/// The active surface's context bar, with the surface's id.
pub open spec fn context_bar_spec<C>(m: PresentationModel<C>) -> Option<(SurfaceId, ContextBar)> {
    match active_surface_spec(m) {
        Some(id) => if m.context_bars.contains_key(id@) {
            Some((id, m.context_bars[id@].1))
        } else {
            None
        },
        None => None,
    }
}

/// The active surface's open overlay, with the surface's id.
pub open spec fn overlay_spec<C>(m: PresentationModel<C>) -> Option<(SurfaceId, OverlaySpec)> {
    match active_surface_spec(m) {
        Some(id) => if m.overlays.contains_key(id@) {
            Some((id, m.overlays[id@].1))
        } else {
            None
        },
        None => None,
    }
}

/// The surfaces to show, in pane order. Without a profile, the last
/// replaced surface. A split shows the primary and then the detail surface,
/// each only if held. A single pane shows the active surface if held, else
/// the primary one if held.
pub open spec fn visible_ids_spec<C>(m: PresentationModel<C>) -> Seq<SurfaceId> {
    match m.profile {
        None => match m.last_surface {
            Some(id) => seq![id],
            None => seq![],
        },
        Some(p) => match p.pane_layout {
            PaneLayout::Split => {
                let primary = if m.surfaces.contains_key(p.primary_surface@) {
                    seq![p.primary_surface]
                } else {
                    seq![]
                };
                let detail = match p.detail_surface {
                    Some(d) => if m.surfaces.contains_key(d@) {
                        seq![d]
                    } else {
                        seq![]
                    },
                    None => seq![],
                };
                primary + detail
            },
            PaneLayout::Single => {
                let id = if m.surfaces.contains_key(p.active_surface@) {
                    p.active_surface
                } else {
                    p.primary_surface
                };
                if m.surfaces.contains_key(id@) {
                    seq![id]
                } else {
                    seq![]
                }
            },
        },
    }
}

/// The two events that report activating `interaction` on the surface the
/// context bar belongs to.
pub open spec fn activation_spec(surface_id: SurfaceId, interaction: InteractionId) -> Seq<Event> {
    seq![
        Event::SurfaceActivated { surface_id },
        Event::ActionActivated { surface_id, interaction_id: interaction },
    ]
}

impl<C> GtkPresentationState<C> {
    pub open spec fn wf(&self) -> bool {
        model_wf(self@)
    }

    /// An empty state: no surfaces, bars, overlays or profile.
    pub fn new() -> (state: Self)
        ensures
            state.wf(),
            state@.surfaces.is_empty(),
            state@.context_bars.is_empty(),
            state@.overlays.is_empty(),
            state@.profile is None,
            state@.last_surface is None,
    {
        GtkPresentationState {
            surfaces: StringHashMap::new(),
            context_bars: StringHashMap::new(),
            profile: None,
            overlays: StringHashMap::new(),
            last_surface: None,
        }
    }

    fn is_current_revision(&self, surface_id: &SurfaceId, revision: u64) -> (r: bool)
        ensures
            r == at_current_revision(self@, surface_id@, revision),
    {
        match self.surfaces.get(surface_id.as_str()) {
            Some(surface) => surface.revision == revision,
            None => false,
        }
    }

    fn active_surface_id(&self) -> (id: Option<&SurfaceId>)
        ensures
            match id {
                Some(i) => active_surface_spec(self@) == Some(*i),
                None => active_surface_spec(self@) is None,
            },
    {
        match &self.profile {
            Some(p) => {
                if self.surfaces.contains_key(p.active_surface.as_str()) {
                    return Some(&p.active_surface);
                }
            },
            None => {},
        }
        match &self.last_surface {
            Some(id) => Some(id),
            None => None,
        }
    }

    /// Take one command from Core. Returns whether the shell accepted it;
    /// a refused command leaves the state as it was.
    pub fn apply(&mut self, command: Command<C>) -> (accepted: bool)
        requires
            old(self).wf(),
        ensures
            final(self).wf(),
            (final(self)@, accepted) == apply_spec(old(self)@, command),
    {
        let ghost before = self@;
        match command {
            Command::ReplaceSurface { surface } => {
                let replace = match self.surfaces.get(surface.surface_id.as_str()) {
                    Some(current) => surface.revision >= current.revision,
                    None => true,
                };
                if replace {
                    let key = surface.surface_id.text.clone();
                    let last = surface.surface_id.duplicate();
                    self.context_bars.remove(key.as_str());
                    self.overlays.remove(key.as_str());
                    self.surfaces.insert(key, surface);
                    self.last_surface = Some(last);
                    assert(self@ == apply_spec(before, command).0);
                }
                replace
            },
            Command::SetContextBar { surface_id, revision, bar } => {
                if self.is_current_revision(&surface_id, revision) {
                    self.context_bars.insert(surface_id.text, (revision, bar));
                    assert(self@ == apply_spec(before, command).0);
                    true
                } else {
                    false
                }
            },
            Command::SetPresentationProfile { profile } => {
                self.profile = Some(profile);
                assert(self@ == apply_spec(before, command).0);
                true
            },
            Command::PresentOverlay { surface_id, revision, overlay } => {
                if self.is_current_revision(&surface_id, revision) {
                    self.overlays.insert(surface_id.text, (revision, overlay));
                    assert(self@ == apply_spec(before, command).0);
                    true
                } else {
                    false
                }
            },
            Command::DismissOverlay { surface_id, kind } => {
                let open_kind = match self.overlays.get(surface_id.as_str()) {
                    Some(entry) => entry.1.kind == kind,
                    None => false,
                };
                if open_kind {
                    self.overlays.remove(surface_id.as_str());
                    assert(self@ == apply_spec(before, command).0);
                    true
                } else {
                    false
                }
            },
            _ => true,
        }
    }

    /// The active surface's context bar, with the surface's id.
    pub fn context_bar(&self) -> (r: Option<(&SurfaceId, &ContextBar)>)
        ensures
            match r {
                Some((id, bar)) => context_bar_spec(self@) == Some((*id, *bar)),
                None => context_bar_spec(self@) is None,
            },
    {
        let surface_id = match self.active_surface_id() {
            Some(id) => id,
            None => return None,
        };
        match self.context_bars.get(surface_id.as_str()) {
            Some(entry) => Some((surface_id, &entry.1)),
            None => None,
        }
    }

    /// The active surface.
    pub fn surface(&self) -> (r: Option<&SurfaceSpec<C>>)
        ensures
            match active_surface_spec(self@) {
                Some(id) => if self@.surfaces.contains_key(id@) {
                    r == Some(&self@.surfaces[id@])
                } else {
                    r is None
                },
                None => r is None,
            },
    {
        match self.active_surface_id() {
            Some(id) => self.surfaces.get(id.as_str()),
            None => None,
        }
    }

    /// The held surface with this id.
    pub fn surface_by_id(&self, surface_id: &SurfaceId) -> (r: Option<&SurfaceSpec<C>>)
        ensures
            if self@.surfaces.contains_key(surface_id@) {
                r == Some(&self@.surfaces[surface_id@])
            } else {
                r is None
            },
    {
        self.surfaces.get(surface_id.as_str())
    }

    /// The ids of the surfaces to show, in pane order.
    pub fn visible_surface_ids(&self) -> (ids: Vec<SurfaceId>)
        ensures
            ids@ == visible_ids_spec(self@),
    {
        let mut ids: Vec<SurfaceId> = Vec::new();
        match &self.profile {
            None => {
                match &self.last_surface {
                    Some(id) => ids.push(id.duplicate()),
                    None => {},
                }
            },
            Some(p) => match p.pane_layout {
                PaneLayout::Split => {
                    if self.surfaces.contains_key(p.primary_surface.as_str()) {
                        ids.push(p.primary_surface.duplicate());
                    }
                    match &p.detail_surface {
                        Some(d) => {
                            if self.surfaces.contains_key(d.as_str()) {
                                ids.push(d.duplicate());
                            }
                        },
                        None => {},
                    }
                },
                PaneLayout::Single => {
                    let id = if self.surfaces.contains_key(p.active_surface.as_str()) {
                        &p.active_surface
                    } else {
                        &p.primary_surface
                    };
                    if self.surfaces.contains_key(id.as_str()) {
                        ids.push(id.duplicate());
                    }
                },
            },
        }
        assert(ids@ =~= visible_ids_spec(self@));
        ids
    }

    /// The surfaces to show, in pane order.
    pub fn visible_surfaces(&self) -> (surfaces: Vec<&SurfaceSpec<C>>)
        requires
            self.wf(),
        ensures
            surfaces@.len() == visible_ids_spec(self@).len(),
            forall|i: int|
                0 <= i < surfaces@.len() ==> *#[trigger] surfaces@[i] == self@.surfaces[visible_ids_spec(
                    self@,
                )[i]@],
    {
        let ids = self.visible_surface_ids();
        let ghost m = self@;
        let mut surfaces: Vec<&SurfaceSpec<C>> = Vec::new();
        let n = ids.len();
        let mut i: usize = 0;
        while i < n
            invariant
                n == ids@.len(),
                ids@ == visible_ids_spec(m),
                m == self@,
                model_wf(m),
                i <= n,
                surfaces@.len() == i,
                forall|j: int| 0 <= j < i ==> *#[trigger] surfaces@[j] == m.surfaces[ids@[j]@],
            decreases n - i,
        {
            proof {
                lemma_visible_ids_held(m, i as int);
            }
            match self.surfaces.get(ids[i].as_str()) {
                Some(surface) => surfaces.push(surface),
                None => {},
            }
            i = i + 1;
        }
        surfaces
    }

    /// The presentation profile Core last set.
    pub fn profile(&self) -> (r: Option<&PresentationProfile>)
        ensures
            match r {
                Some(p) => self@.profile == Some(*p),
                None => self@.profile is None,
            },
    {
        match &self.profile {
            Some(p) => Some(p),
            None => None,
        }
    }

    /// The active surface's open overlay, with the surface's id.
    pub fn overlay(&self) -> (r: Option<(&SurfaceId, &OverlaySpec)>)
        ensures
            match r {
                Some((id, o)) => overlay_spec(self@) == Some((*id, *o)),
                None => overlay_spec(self@) is None,
            },
    {
        let surface_id = match self.active_surface_id() {
            Some(id) => id,
            None => return None,
        };
        match self.overlays.get(surface_id.as_str()) {
            Some(entry) => Some((surface_id, &entry.1)),
            None => None,
        }
    }

    /// Remove and hand back the active surface's open overlay.
    pub fn take_overlay(&mut self) -> (r: Option<(SurfaceId, OverlaySpec)>)
        requires
            old(self).wf(),
        ensures
            final(self).wf(),
            match overlay_spec(old(self)@) {
                Some((id, o)) => r matches Some((rid, ro)) && rid == id && ro@ == o@
                    && final(self)@ == PresentationModel {
                    overlays: old(self)@.overlays.remove(id@),
                    ..old(self)@
                },
                None => r is None && final(self)@ == old(self)@,
            },
            overlay_spec(final(self)@) is None,
    {
        let ghost before = self@;
        let surface_id = match self.active_surface_id() {
            Some(id) => id.duplicate(),
            None => return None,
        };
        let overlay = match self.overlays.get(surface_id.as_str()) {
            Some(entry) => entry.1.duplicate(),
            None => return None,
        };
        self.overlays.remove(surface_id.as_str());
        assert(self@ == PresentationModel { overlays: before.overlays.remove(surface_id@), ..before });
        Some((surface_id, overlay))
    }

    /// The events reporting that `interaction_id` was activated on the
    /// surface whose context bar is showing; none when no bar is showing.
    pub fn activation_events(&self, interaction_id: &InteractionId) -> (events: Vec<Event>)
        ensures
            match context_bar_spec(self@) {
                Some((id, _)) => events@ == activation_spec(id, *interaction_id),
                None => events@.len() == 0,
            },
    {
        match self.context_bar() {
            None => Vec::new(),
            Some((surface_id, _)) => interaction_events(surface_id, interaction_id),
        }
    }

    /// The events a back request reports: the surface whose context bar is
    /// showing is activated, then asked to go back; none when no bar shows.
    pub fn back_events(&self) -> (events: Vec<Event>)
        ensures
            match context_bar_spec(self@) {
                Some((id, _)) => events@ == seq![
                    Event::SurfaceActivated { surface_id: id },
                    Event::BackRequested { surface_id: id },
                ],
                None => events@.len() == 0,
            },
    {
        match self.context_bar() {
            None => Vec::new(),
            Some((surface_id, _)) => {
                let events = vec![
                    Event::SurfaceActivated { surface_id: surface_id.duplicate() },
                    Event::BackRequested { surface_id: surface_id.duplicate() },
                ];
                assert(events@ =~= seq![
                    Event::SurfaceActivated { surface_id: *surface_id },
                    Event::BackRequested { surface_id: *surface_id },
                ]);
                events
            },
        }
    }

    /// The events a standard shortcut reports: the activation of the first
    /// control of the showing context bar that declares it; none when no bar
    /// shows or no control declares it.
    pub fn shortcut_events(&self, shortcut: StandardShortcut) -> (events: Vec<Event>)
        ensures
            match context_bar_spec(self@) {
                Some((id, bar)) => match first_with_shortcut(bar_slots(bar), shortcut) {
                    Some(i) => events@ == activation_spec(id, bar_slots(bar)[i].1.interaction_id),
                    None => events@.len() == 0,
                },
                None => events@.len() == 0,
            },
    {
        match self.context_bar() {
            None => Vec::new(),
            Some((surface_id, bar)) => match interaction_for_shortcut(bar, shortcut) {
                None => Vec::new(),
                Some(interaction_id) => interaction_events(surface_id, interaction_id),
            },
        }
    }
}

/// The two events that report activating `interaction_id` on `surface_id`.
pub fn interaction_events(surface_id: &SurfaceId, interaction_id: &InteractionId) -> (events: Vec<
    Event,
>)
    ensures
        events@ == activation_spec(*surface_id, *interaction_id),
{
    let events = vec![
        Event::SurfaceActivated { surface_id: surface_id.duplicate() },
        Event::ActionActivated {
            surface_id: surface_id.duplicate(),
            interaction_id: interaction_id.duplicate(),
        },
    ];
    assert(events@ =~= activation_spec(*surface_id, *interaction_id));
    events
}

impl<C> Default for GtkPresentationState<C> {
    fn default() -> (state: Self)
        ensures
            state.wf(),
            state@.surfaces.is_empty(),
            state@.context_bars.is_empty(),
            state@.overlays.is_empty(),
            state@.profile is None,
            state@.last_surface is None,
    {
        GtkPresentationState::new()
    }
}

/// Every surface the shell shows is one it holds.
pub proof fn lemma_visible_ids_held<C>(m: PresentationModel<C>, i: int)
    requires
        model_wf(m),
        0 <= i < visible_ids_spec(m).len(),
    ensures
        m.surfaces.contains_key(visible_ids_spec(m)[i]@),
{
}

/// A surface older than the one held is refused, and nothing changes.
pub proof fn law_stale_surface_is_refused<C>(m: PresentationModel<C>, surface: SurfaceSpec<C>)
    requires
        m.surfaces.contains_key(surface.surface_id@),
        surface.revision < m.surfaces[surface.surface_id@].revision,
    ensures
        apply_spec(m, Command::ReplaceSurface { surface }) == (m, false),
{
}

/// No command takes a surface away or moves it back to an older revision.
pub proof fn law_surfaces_never_go_back<C>(m: PresentationModel<C>, command: Command<C>)
    ensures
        forall|k: Seq<char>| #[trigger]
            m.surfaces.contains_key(k) ==> apply_spec(m, command).0.surfaces.contains_key(k)
                && apply_spec(m, command).0.surfaces[k].revision >= m.surfaces[k].revision,
{
}

/// A surface that replaces the held one becomes the held one and the last
/// replaced, and the old revision's context bar and overlay go with it.
pub proof fn law_replacing_a_surface_clears_its_bar_and_overlay<C>(
    m: PresentationModel<C>,
    surface: SurfaceSpec<C>,
)
    requires
        apply_spec(m, Command::ReplaceSurface { surface }).1,
    ensures
        ({
            let after = apply_spec(m, Command::ReplaceSurface { surface }).0;
            &&& after.surfaces[surface.surface_id@] == surface
            &&& !after.context_bars.contains_key(surface.surface_id@)
            &&& !after.overlays.contains_key(surface.surface_id@)
            &&& after.last_surface == Some(surface.surface_id)
        }),
{
}

/// Every command keeps the state well formed: each context bar and overlay
/// the shell holds belongs to the current revision of a surface it holds.
pub proof fn law_commands_keep_the_state_well_formed<C>(m: PresentationModel<C>, command: Command<C>)
    requires
        model_wf(m),
    ensures
        model_wf(apply_spec(m, command).0),
{
}

/// A context bar for an older or unknown revision is refused.
pub proof fn law_stale_context_bar_is_refused<C>(
    m: PresentationModel<C>,
    surface_id: SurfaceId,
    revision: u64,
    bar: ContextBar,
)
    requires
        !at_current_revision(m, surface_id@, revision),
    ensures
        apply_spec(m, Command::SetContextBar { surface_id, revision, bar }) == (m, false),
{
}

/// A context bar set for the active surface's current revision is the one
/// the shell shows next.
pub proof fn law_context_bar_reads_back<C>(
    m: PresentationModel<C>,
    surface_id: SurfaceId,
    revision: u64,
    bar: ContextBar,
)
    requires
        at_current_revision(m, surface_id@, revision),
        active_surface_spec(m) matches Some(active) && active@ == surface_id@,
    ensures
        apply_spec(m, Command::SetContextBar { surface_id, revision, bar }).1,
        context_bar_spec(apply_spec(m, Command::SetContextBar { surface_id, revision, bar }).0)
            == Some((active_surface_spec(m)->0, bar)),
{
}

/// An overlay presented on the active surface's current revision is the one
/// the shell shows next.
pub proof fn law_overlay_reads_back<C>(
    m: PresentationModel<C>,
    surface_id: SurfaceId,
    revision: u64,
    overlay: OverlaySpec,
)
    requires
        at_current_revision(m, surface_id@, revision),
        active_surface_spec(m) matches Some(active) && active@ == surface_id@,
    ensures
        apply_spec(m, Command::PresentOverlay { surface_id, revision, overlay }).1,
        overlay_spec(apply_spec(m, Command::PresentOverlay { surface_id, revision, overlay }).0)
            == Some((active_surface_spec(m)->0, overlay)),
{
}

/// A dismissal closes an open overlay of its kind, and is refused, with
/// nothing changed, when the open overlay is of another kind or none is
/// open.
pub proof fn law_dismissal_closes_only_its_kind<C>(
    m: PresentationModel<C>,
    surface_id: SurfaceId,
    kind: OverlayKind,
)
    ensures
        ({
            let (after, accepted) = apply_spec(m, Command::DismissOverlay { surface_id, kind });
            &&& accepted ==> !after.overlays.contains_key(surface_id@)
            &&& accepted <==> (m.overlays.contains_key(surface_id@) && m.overlays[surface_id@].1.kind
                == kind)
            &&& !accepted ==> after == m
        }),
{
}

/// A presentation profile is always accepted and replaces the last one.
pub proof fn law_profile_is_always_taken<C>(m: PresentationModel<C>, profile: PresentationProfile)
    ensures
        apply_spec(m, Command::SetPresentationProfile { profile }).1,
        apply_spec(m, Command::SetPresentationProfile { profile }).0.profile == Some(profile),
{
}

/// A command delivered twice leaves the state as delivering it once.
pub proof fn law_redelivery_changes_nothing<C>(m: PresentationModel<C>, command: Command<C>)
    requires
        model_wf(m),
    ensures
        apply_spec(apply_spec(m, command).0, command).0 == apply_spec(m, command).0,
{
    let once = apply_spec(m, command).0;
    let twice = apply_spec(once, command).0;
    match command {
        Command::ReplaceSurface { surface } => {
            if apply_spec(m, command).1 {
                let k = surface.surface_id@;
                assert(once.surfaces.insert(k, surface) =~= once.surfaces);
                assert(once.context_bars.remove(k) =~= once.context_bars);
                assert(once.overlays.remove(k) =~= once.overlays);
            }
        },
        Command::SetContextBar { surface_id, revision, bar } => {
            if apply_spec(m, command).1 {
                assert(once.context_bars.insert(surface_id@, (revision, bar)) =~= once.context_bars);
            }
        },
        Command::PresentOverlay { surface_id, revision, overlay } => {
            if apply_spec(m, command).1 {
                assert(once.overlays.insert(surface_id@, (revision, overlay)) =~= once.overlays);
            }
        },
        _ => {},
    }
    assert(twice == once);
}

/// When the presentation profile's active surface is held, it is the
/// active surface: its context bar and its overlay are the ones shown, and
/// the events of the bar go to it, whichever surface was replaced last.
pub proof fn law_profile_picks_the_active_surface<C>(m: PresentationModel<C>, p: PresentationProfile)
    requires
        m.profile == Some(p),
        m.surfaces.contains_key(p.active_surface@),
    ensures
        active_surface_spec(m) == Some(p.active_surface),
        context_bar_spec(m) == (if m.context_bars.contains_key(p.active_surface@) {
            Some((p.active_surface, m.context_bars[p.active_surface@].1))
        } else {
            None
        }),
        overlay_spec(m) == (if m.overlays.contains_key(p.active_surface@) {
            Some((p.active_surface, m.overlays[p.active_surface@].1))
        } else {
            None
        }),
{
}

/// Without a profile, or when the profile's active surface is not held,
/// the surface replaced last is the active one.
pub proof fn law_last_surface_is_active_otherwise<C>(m: PresentationModel<C>)
    requires
        m.profile matches Some(p) ==> !m.surfaces.contains_key(p.active_surface@),
    ensures
        active_surface_spec(m) == m.last_surface,
{
}

/// A split shows its held primary surface and then its held detail
/// surface, whichever of the two is active; a surface that is not held is
/// left out.
pub proof fn law_split_shows_primary_then_detail<C>(
    m: PresentationModel<C>,
    p: PresentationProfile,
    active: SurfaceId,
)
    requires
        m.profile == Some(p),
        p.pane_layout == PaneLayout::Split,
    ensures
        visible_ids_spec(m) == (if m.surfaces.contains_key(p.primary_surface@) {
            seq![p.primary_surface]
        } else {
            seq![]
        }) + (match p.detail_surface {
            Some(d) => if m.surfaces.contains_key(d@) {
                seq![d]
            } else {
                seq![]
            },
            None => seq![],
        }),
        visible_ids_spec(m) == visible_ids_spec(
            PresentationModel {
                profile: Some(PresentationProfile { active_surface: active, ..p }),
                ..m
            },
        ),
        p.detail_surface is Some && m.surfaces.contains_key(p.detail_surface->0@)
            ==> visible_ids_spec(m).len() > 0 && visible_ids_spec(m).last() == p.detail_surface->0,
{
}

} // verus!
