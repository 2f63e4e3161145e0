//! The shell's window chrome: the window-class styling and sidebar collapse
//! Core's window class asks for, animation timing under the motion
//! preference, the size reported to Core, and how context-bar buttons look.

use vstd::prelude::*;

use crate::contextual_surface::GtkContextRole;
use crate::presentation::{ActionTone, Command, Event, InputMode, MotionPreference, WindowClass};
use crate::text::owned;

verus! {

/// The style class for each window class, which the shell keeps exactly
/// one of on its content.
pub fn window_class_css(class: WindowClass) -> (css: &'static str)
    ensures
        css@ == (match class {
            WindowClass::Compact => "presentation-compact"@,
            WindowClass::Medium => "presentation-medium"@,
            WindowClass::Expanded => "presentation-expanded"@,
        }),
{
    match class {
        WindowClass::Compact => "presentation-compact",
        WindowClass::Medium => "presentation-medium",
        WindowClass::Expanded => "presentation-expanded",
    }
}

/// All window-class style classes, removed before the current one is added.
pub fn window_class_styles() -> (all: Vec<&'static str>)
    ensures
        all@.map_values(|s: &str| s@) == seq![
            "presentation-compact"@,
            "presentation-medium"@,
            "presentation-expanded"@,
        ],
{
    let all = vec!["presentation-compact", "presentation-medium", "presentation-expanded"];
    assert(all@.map_values(|s: &str| s@) =~= seq![
        "presentation-compact"@,
        "presentation-medium"@,
        "presentation-expanded"@,
    ]);
    all
}

/// The persistent sidebar collapses under Core's own compact decision,
/// never under a width the shell computes itself.
pub fn sidebar_collapsed(class: WindowClass) -> (collapsed: bool)
    ensures
        collapsed == (class == WindowClass::Compact),
{
    match class {
        WindowClass::Compact => true,
        _ => false,
    }
}

/// An animation runs its full length, or not at all under reduced motion.
pub fn animation_duration(full_duration_ms: u32, motion: MotionPreference) -> (ms: u32)
    ensures
        ms == (if motion == MotionPreference::Full {
            full_duration_ms
        } else {
            0
        }),
{
    match motion {
        MotionPreference::Full => full_duration_ms,
        MotionPreference::Reduced => 0,
    }
}

/// The size reported to Core: at least one pixel each way.
pub fn reported_size(width: i32, height: i32) -> (size: (u32, u32))
    ensures
        size.0 == (if width < 1 {
            1
        } else {
            width
        }),
        size.1 == (if height < 1 {
            1
        } else {
            height
        }),
{
    let w: u32 = if width < 1 {
        1
    } else {
        width as u32
    };
    let h: u32 = if height < 1 {
        1
    } else {
        height as u32
    };
    (w, h)
}

/// The environment the desktop reports to Core for a window of this size:
/// the size (at least one pixel each way), keyboard and pointer input, and
/// the motion preference.
pub fn environment_event(width: i32, height: i32, motion: MotionPreference) -> (event: Event)
    ensures
        event matches Event::PresentationEnvironmentChanged {
            available_width,
            available_height,
            input_modes,
            motion: m,
        } && (available_width, available_height) == (if width < 1 {
            1u32
        } else {
            width as u32
        }, if height < 1 {
            1u32
        } else {
            height as u32
        }) && input_modes@ == seq![InputMode::Keyboard, InputMode::Pointer] && m == motion,
{
    let (available_width, available_height) = reported_size(width, height);
    let input_modes = vec![InputMode::Keyboard, InputMode::Pointer];
    assert(input_modes@ =~= seq![InputMode::Keyboard, InputMode::Pointer]);
    Event::PresentationEnvironmentChanged { available_width, available_height, input_modes, motion }
}

/// The window classes of the profiles among `commands`, in order.
pub open spec fn profile_classes_spec<C>(commands: Seq<Command<C>>) -> Seq<WindowClass>
    decreases commands.len(),
{
    if commands.len() == 0 {
        seq![]
    } else {
        let rest = profile_classes_spec(commands.drop_last());
        match commands.last() {
            Command::SetPresentationProfile { profile } => rest.push(profile.window_class),
            _ => rest,
        }
    }
}

/// The window class of each presentation profile Core answered with, in
/// order; the shell styles its content by each in turn.
pub fn profile_window_classes<C>(commands: &Vec<Command<C>>) -> (classes: Vec<WindowClass>)
    ensures
        classes@ == profile_classes_spec(commands@),
{
    let mut classes: Vec<WindowClass> = Vec::new();
    let n = commands.len();
    let mut i: usize = 0;
    while i < n
        invariant
            n == commands@.len(),
            i <= n,
            classes@ == profile_classes_spec(commands@.subrange(0, i as int)),
        decreases n - i,
    {
        proof {
            assert(commands@.subrange(0, i + 1).drop_last() =~= commands@.subrange(0, i as int));
        }
        match &commands[i] {
            Command::SetPresentationProfile { profile } => classes.push(profile.window_class),
            _ => {},
        }
        i = i + 1;
    }
    assert(commands@.subrange(0, n as int) =~= commands@);
    classes
}

/// A new window size is reported when it differs from the last one
/// reported and the window has been laid out.
pub fn size_needs_report(size: (i32, i32), last: (i32, i32)) -> (report: bool)
    ensures
        report == ((size.0 != last.0 || size.1 != last.1) && size.0 > 0 && size.1 > 0),
{
    (size.0 != last.0 || size.1 != last.1) && size.0 > 0 && size.1 > 0
}

/// A context-bar button's painted label: the Back control paints an arrow
/// before Core's copy.
pub fn context_button_label(role: GtkContextRole, label: &str) -> (text: String)
    ensures
        role == GtkContextRole::Back ==> text@ == "← "@ + label@,
        role != GtkContextRole::Back ==> text@ == label@,
{
    match role {
        GtkContextRole::Back => {
            let mut text = owned("← ");
            text.append(label);
            text
        },
        _ => owned(label),
    }
}

/// The style class naming a context-bar slot.
pub open spec fn role_class(role: GtkContextRole) -> Seq<char> {
    match role {
        GtkContextRole::Back => "context-back"@,
        GtkContextRole::Navigation => "context-navigation"@,
        GtkContextRole::Primary => "context-primary"@,
        GtkContextRole::Secondary => "context-secondary"@,
    }
}

/// The style classes of a context-bar button: its slot; then, when
/// emphasized, the suggested-action pill; then, when it destroys something,
/// the destructive style.
pub open spec fn context_button_classes_spec(
    role: GtkContextRole,
    emphasized: bool,
    tone: ActionTone,
) -> Seq<Seq<char>> {
    seq![role_class(role)] + (if emphasized {
        seq!["suggested-action"@, "pill"@]
    } else {
        seq![]
    }) + (if tone == ActionTone::Destructive {
        seq!["destructive-action"@]
    } else {
        seq![]
    })
}

pub fn context_button_classes(role: GtkContextRole, emphasized: bool, tone: ActionTone) -> (classes:
    Vec<&'static str>)
    ensures
        classes@.map_values(|s: &str| s@) == context_button_classes_spec(role, emphasized, tone),
{
    let mut classes: Vec<&'static str> = Vec::new();
    match role {
        GtkContextRole::Back => classes.push("context-back"),
        GtkContextRole::Navigation => classes.push("context-navigation"),
        GtkContextRole::Primary => classes.push("context-primary"),
        GtkContextRole::Secondary => classes.push("context-secondary"),
    }
    if emphasized {
        classes.push("suggested-action");
        classes.push("pill");
    }
    match tone {
        ActionTone::Destructive => classes.push("destructive-action"),
        ActionTone::Standard => {},
    }
    assert(classes@.map_values(|s: &str| s@) =~= context_button_classes_spec(role, emphasized, tone));
    classes
}

/// A context-bar button is styled by its slot first; it carries the
/// suggested-action pill exactly when it is emphasized, and the destructive
/// style exactly when its action destroys something, whether or not it is
/// emphasized.
pub proof fn law_context_button_styles(role: GtkContextRole, emphasized: bool, tone: ActionTone)
    ensures
        context_button_classes_spec(role, emphasized, tone)[0] == role_class(role),
        context_button_classes_spec(role, emphasized, tone).contains("destructive-action"@) <==> tone
            == ActionTone::Destructive,
        context_button_classes_spec(role, emphasized, tone).contains("suggested-action"@)
            <==> emphasized,
        context_button_classes_spec(role, emphasized, tone).contains("pill"@) <==> emphasized,
{
    reveal_strlit("context-back");
    reveal_strlit("context-navigation");
    reveal_strlit("context-primary");
    reveal_strlit("context-secondary");
    reveal_strlit("suggested-action");
    reveal_strlit("pill");
    reveal_strlit("destructive-action");
    let c = context_button_classes_spec(role, emphasized, tone);
    let d = "destructive-action"@;
    let g = "suggested-action"@;
    let q = "pill"@;
    assert(role_class(role) != d && role_class(role) != g && role_class(role) != q) by {
        assert(role_class(role)[8] != d[8] || role_class(role).len() != d.len());
        assert(role_class(role).len() != g.len() || role_class(role)[0] != g[0]);
        assert(role_class(role).len() != q.len());
    }
    assert(d.len() != g.len() && d.len() != q.len() && g.len() != q.len());
    if tone == ActionTone::Destructive {
        assert(c.last() == d);
    }
    if emphasized {
        assert(c[1] == g);
        assert(c[2] == q);
    }
}

/// The extra style class of a surface or overlay action button: the
/// destructive style for an action that destroys something.
pub fn action_tone_class(tone: ActionTone) -> (class: Option<&'static str>)
    ensures
        tone == ActionTone::Destructive ==> (class matches Some(c) && c@ == "destructive-action"@),
        tone == ActionTone::Standard ==> class is None,
{
    match tone {
        ActionTone::Destructive => Some("destructive-action"),
        ActionTone::Standard => None,
    }
}

} // verus!
