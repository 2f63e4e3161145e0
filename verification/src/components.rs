//! Decisions behind the screen-model component renderers: chip and badge
//! visuals, text styles, icon names, field visibility controls, which
//! settings rows react to activation, and the copy and ids the renderers
//! build.

use vstd::prelude::*;
use vstd::string::*;

use crate::text::{decimal, owned, push_decimal, same_text};

verus! {

/// The kind of an app-level status chip.
#[derive(Clone, Copy, Debug, PartialEq, Eq, Structural)]
pub enum IndicatorKind {
    Active,
    Error,
    Neutral,
    Busy,
}

/// A chip's symbolic icon and style class. A busy chip draws a spinner in
/// place of the icon, but its label still takes the class.
pub fn kind_visuals(kind: IndicatorKind) -> (visuals: (&'static str, &'static str))
    ensures
        (visuals.0@, visuals.1@) == (match kind {
            IndicatorKind::Active => ("emblem-default-symbolic"@, "success"@),
            IndicatorKind::Error => ("dialog-error-symbolic"@, "error"@),
            IndicatorKind::Neutral => ("emblem-shared-symbolic"@, "dim-label"@),
            IndicatorKind::Busy => ("process-working-symbolic"@, "accent"@),
        }),
{
    match kind {
        IndicatorKind::Active => ("emblem-default-symbolic", "success"),
        IndicatorKind::Error => ("dialog-error-symbolic", "error"),
        IndicatorKind::Neutral => ("emblem-shared-symbolic", "dim-label"),
        IndicatorKind::Busy => ("process-working-symbolic", "accent"),
    }
}

/// The state of an in-progress operation.
#[derive(Clone, Copy, Debug, PartialEq, Eq, Structural)]
pub enum Status {
    Pending,
    InProgress,
    Success,
    Failed,
    Warning,
}

/// A status badge's copy and style class.
pub fn status_badge(status: Status) -> (badge: (&'static str, &'static str))
    ensures
        (badge.0@, badge.1@) == (match status {
            Status::Pending => ("Pending"@, "dim-label"@),
            Status::InProgress => ("In Progress"@, "accent"@),
            Status::Success => ("Success"@, "success"@),
            Status::Failed => ("Failed"@, "error"@),
            Status::Warning => ("Warning"@, "warning"@),
        }),
{
    match status {
        Status::Pending => ("Pending", "dim-label"),
        Status::InProgress => ("In Progress", "accent"),
        Status::Success => ("Success", "success"),
        Status::Failed => ("Failed", "error"),
        Status::Warning => ("Warning", "warning"),
    }
}

/// The style of a text component.
#[derive(Clone, Copy, Debug, PartialEq, Eq, Structural)]
pub enum TextStyle {
    Title,
    Subtitle,
    Body,
    Caption,
}

pub fn text_style_class(style: TextStyle) -> (class: &'static str)
    ensures
        class@ == (match style {
            TextStyle::Title => "title-1"@,
            TextStyle::Subtitle => "title-3"@,
            TextStyle::Body => "body"@,
            TextStyle::Caption => "caption"@,
        }),
{
    match style {
        TextStyle::Title => "title-1",
        TextStyle::Subtitle => "title-3",
        TextStyle::Body => "body",
        TextStyle::Caption => "caption",
    }
}

/// The theme icon a component's icon name stands for; a name the table does
/// not know is used as an icon name as it is.
pub open spec fn icon_name_spec(name: Seq<char>) -> Seq<char> {
    if name == "lock"@ {
        "system-lock-screen-symbolic"@
    } else if name == "shield"@ {
        "security-high-symbolic"@
    } else if name == "key"@ {
        "dialog-password-symbolic"@
    } else if name == "warning"@ {
        "dialog-warning-symbolic"@
    } else if name == "edit"@ {
        "document-edit-symbolic"@
    } else if name == "share"@ {
        "send-to-symbolic"@
    } else if name == "check"@ {
        "object-select-symbolic"@
    } else if name == "refresh"@ {
        "view-refresh-symbolic"@
    } else if name == "people"@ || name == "group"@ {
        "system-users-symbolic"@
    } else if name == "card"@ || name == "contact"@ {
        "contact-new-symbolic"@
    } else if name == "devices"@ || name == "device"@ {
        "computer-symbolic"@
    } else if name == "server"@ {
        "network-server-symbolic"@
    } else if name == "eye"@ {
        "view-reveal-symbolic"@
    } else if name == "backup"@ {
        "drive-harddisk-symbolic"@
    } else {
        name
    }
}

pub fn icon_name(name: &str) -> (icon: &str)
    ensures
        icon@ == icon_name_spec(name@),
{
    if same_text(name, "lock") {
        "system-lock-screen-symbolic"
    } else if same_text(name, "shield") {
        "security-high-symbolic"
    } else if same_text(name, "key") {
        "dialog-password-symbolic"
    } else if same_text(name, "warning") {
        "dialog-warning-symbolic"
    } else if same_text(name, "edit") {
        "document-edit-symbolic"
    } else if same_text(name, "share") {
        "send-to-symbolic"
    } else if same_text(name, "check") {
        "object-select-symbolic"
    } else if same_text(name, "refresh") {
        "view-refresh-symbolic"
    } else if same_text(name, "people") || same_text(name, "group") {
        "system-users-symbolic"
    } else if same_text(name, "card") || same_text(name, "contact") {
        "contact-new-symbolic"
    } else if same_text(name, "devices") || same_text(name, "device") {
        "computer-symbolic"
    } else if same_text(name, "server") {
        "network-server-symbolic"
    } else if same_text(name, "eye") {
        "view-reveal-symbolic"
    } else if same_text(name, "backup") {
        "drive-harddisk-symbolic"
    } else {
        name
    }
}

/// Who can see a card field.
#[derive(Debug, PartialEq, Eq)]
pub enum UiFieldVisibility {
    Shown,
    Hidden,
    Scopes(Vec<String>),
}

/// The show/hide control of a field: it offers to hide a shown field and to
/// show any other, and reports the opposite of the field's visibility.
pub fn show_hide_toggle(visibility: &UiFieldVisibility) -> (toggle: (&'static str, bool))
    ensures
        (*visibility is Shown) ==> (toggle.0@ == "Hide"@ && !toggle.1),
        !(*visibility is Shown) ==> (toggle.0@ == "Show"@ && toggle.1),
{
    match visibility {
        UiFieldVisibility::Shown => ("Hide", false),
        _ => ("Show", true),
    }
}

/// Whether the scope named `name` is ticked for a field: every scope for a
/// shown field, none for a hidden one, the listed ones otherwise.
pub open spec fn scope_ticked(visibility: UiFieldVisibility, name: Seq<char>) -> bool {
    match visibility {
        UiFieldVisibility::Shown => true,
        UiFieldVisibility::Hidden => false,
        UiFieldVisibility::Scopes(scopes) => exists|i: int|
            0 <= i < scopes@.len() && #[trigger] scopes@[i]@ == name,
    }
}

fn listed(scopes: &Vec<String>, name: &str) -> (found: bool)
    ensures
        found == exists|i: int| 0 <= i < scopes@.len() && #[trigger] scopes@[i]@ == name@,
{
    let mut i: usize = 0;
    while i < scopes.len()
        invariant
            i <= scopes@.len(),
            forall|j: int| 0 <= j < i ==> #[trigger] scopes@[j]@ != name@,
        decreases scopes@.len() - i,
    {
        if same_text(scopes[i].as_str(), name) {
            return true;
        }
        i = i + 1;
    }
    false
}

/// Per available scope, in order, whether its check box starts ticked.
pub fn ticked_scopes(visibility: &UiFieldVisibility, available: &Vec<String>) -> (ticked: Vec<bool>)
    ensures
        ticked@.len() == available@.len(),
        forall|i: int|
            0 <= i < available@.len() ==> #[trigger] ticked@[i] == scope_ticked(
                *visibility,
                available@[i]@,
            ),
{
    let mut ticked: Vec<bool> = Vec::new();
    let n = available.len();
    let mut i: usize = 0;
    while i < n
        invariant
            n == available@.len(),
            i <= n,
            ticked@.len() == i,
            forall|j: int|
                0 <= j < i ==> #[trigger] ticked@[j] == scope_ticked(*visibility, available@[j]@),
        decreases n - i,
    {
        let on = match visibility {
            UiFieldVisibility::Shown => true,
            UiFieldVisibility::Hidden => false,
            UiFieldVisibility::Scopes(scopes) => listed(scopes, available[i].as_str()),
        };
        ticked.push(on);
        i = i + 1;
    }
    ticked
}

/// The kind of a settings row.
#[derive(Clone, Copy, Debug, PartialEq, Eq, Structural)]
pub enum SettingsItemKind {
    Toggle,
    Value,
    Link,
    Destructive,
}

/// A settings row reacts to activation when it links somewhere or
/// destroys something.
pub open spec fn clickable(kind: SettingsItemKind) -> bool {
    kind == SettingsItemKind::Link || kind == SettingsItemKind::Destructive
}

/// The positions of the rows that react to activation, in order.
pub fn clickable_indices(kinds: &[SettingsItemKind]) -> (indices: Vec<usize>)
    ensures
        forall|k: int|
            0 <= k < indices@.len() ==> #[trigger] indices@[k] < kinds@.len() && clickable(
                kinds@[indices@[k] as int],
            ),
        forall|k: int, l: int| 0 <= k < l < indices@.len() ==> indices@[k] < indices@[l],
        forall|i: int|
            0 <= i < kinds@.len() && clickable(#[trigger] kinds@[i]) ==> indices@.contains(
                i as usize,
            ),
{
    let mut indices: Vec<usize> = Vec::new();
    let n = kinds.len();
    let mut i: usize = 0;
    while i < n
        invariant
            n == kinds@.len(),
            i <= n,
            forall|k: int|
                0 <= k < indices@.len() ==> #[trigger] indices@[k] < i && clickable(
                    kinds@[indices@[k] as int],
                ),
            forall|k: int, l: int| 0 <= k < l < indices@.len() ==> indices@[k] < indices@[l],
            forall|j: int|
                0 <= j < i && clickable(#[trigger] kinds@[j]) ==> indices@.contains(j as usize),
        decreases n - i,
    {
        if kinds[i] == SettingsItemKind::Link || kinds[i] == SettingsItemKind::Destructive {
            let ghost before = indices@;
            indices.push(i);
            proof {
                assert(indices@[before.len() as int] == i);
                assert forall|j: int|
                    0 <= j < i + 1 && clickable(#[trigger] kinds@[j]) implies indices@.contains(
                    j as usize,
                ) by {
                    if j < i {
                        let k = choose|k: int| 0 <= k < before.len() && before[k] == j as usize;
                        assert(indices@[k] == j as usize);
                    }
                }
            }
        }
        i = i + 1;
    }
    indices
}

/// The onboarding progress line: "Step 2 of 5", with " — label" when the
/// step has one.
pub open spec fn progress_text_spec(current: u64, total: u64, label: Option<Seq<char>>) -> Seq<char> {
    let base = "Step "@ + decimal(current as nat) + " of "@ + decimal(total as nat);
    match label {
        Some(l) => base + " — "@ + l,
        None => base,
    }
}

pub fn progress_text(current: u64, total: u64, label: Option<&str>) -> (text: String)
    ensures
        text@ == progress_text_spec(
            current,
            total,
            match label {
                Some(l) => Some(l@),
                None => None,
            },
        ),
{
    let mut text = owned("Step ");
    push_decimal(&mut text, current);
    text.append(" of ");
    push_decimal(&mut text, total);
    match label {
        Some(l) => {
            text.append(" — ");
            text.append(l);
        },
        None => {},
    }
    text
}

/// The id of a component's sub-action: the component id, an underscore,
/// then the suffix (`save`, `edit`, or a toast's undo action).
pub fn sub_action_id(component_id: &str, suffix: &str) -> (id: String)
    ensures
        id@ == component_id@ + "_"@ + suffix@,
{
    let mut id = owned(component_id);
    id.append("_");
    id.append(suffix);
    id
}

/// The CSS giving an initials avatar its colour.
pub open spec fn avatar_background_spec(r: u8, g: u8, b: u8) -> Seq<char> {
    "box.avatar-circle { background-color: rgb("@ + decimal(r as nat) + ","@ + decimal(g as nat)
        + ","@ + decimal(b as nat) + "); }"@
}

pub fn avatar_background_css(r: u8, g: u8, b: u8) -> (css: String)
    ensures
        css@ == avatar_background_spec(r, g, b),
{
    let mut css = owned("box.avatar-circle { background-color: rgb(");
    push_decimal(&mut css, r as u64);
    css.append(",");
    push_decimal(&mut css, g as u64);
    css.append(",");
    push_decimal(&mut css, b as u64);
    css.append("); }");
    css
}

/// The accessible name of a card preview.
pub fn card_preview_label(name: &str) -> (label: String)
    ensures
        label@ == "Contact card: "@ + name@,
{
    let mut label = owned("Contact card: ");
    label.append(name);
    label
}

/// A field's caption in a card preview.
pub fn field_caption(label: &str) -> (caption: String)
    ensures
        caption@ == label@ + ":"@,
{
    let mut caption = owned(label);
    caption.append(":");
    caption
}

/// Primary screen actions are enabled while at least one named entry holds
/// text.
pub fn any_filled(texts: &Vec<String>) -> (filled: bool)
    ensures
        filled == exists|i: int| 0 <= i < texts@.len() && (#[trigger] texts@[i])@.len() > 0,
{
    let mut i: usize = 0;
    while i < texts.len()
        invariant
            i <= texts@.len(),
            forall|j: int| 0 <= j < i ==> (#[trigger] texts@[j])@.len() == 0,
        decreases texts@.len() - i,
    {
        if texts[i].as_str().unicode_len() > 0 {
            return true;
        }
        i = i + 1;
    }
    false
}

/// How a screen action is styled.
#[derive(Clone, Copy, Debug, PartialEq, Eq, Structural)]
pub enum ActionStyle {
    Primary,
    Secondary,
    Destructive,
}

/// A screen action button's style classes, and whether its sensitivity
/// follows the screen's text entries: primary buttons are suggested pills
/// that wait for input, destructive ones are destructive pills, secondary
/// ones are plain.
pub fn action_style_classes(style: ActionStyle) -> (r: (Vec<&'static str>, bool))
    ensures
        r.0@.map_values(|c: &str| c@) == match style {
            ActionStyle::Primary => seq!["suggested-action"@, "pill"@],
            ActionStyle::Destructive => seq!["destructive-action"@, "pill"@],
            ActionStyle::Secondary => seq![],
        },
        r.1 == (style == ActionStyle::Primary),
{
    let r = match style {
        ActionStyle::Primary => (vec!["suggested-action", "pill"], true),
        ActionStyle::Destructive => (vec!["destructive-action", "pill"], false),
        ActionStyle::Secondary => (Vec::new(), false),
    };
    assert(r.0@.map_values(|c: &str| c@) =~= match style {
        ActionStyle::Primary => seq!["suggested-action"@, "pill"@],
        ActionStyle::Destructive => seq!["destructive-action"@, "pill"@],
        ActionStyle::Secondary => seq![],
    });
    r
}

/// Before a screen action runs, the focused entry's text is handed to the
/// engine, but only an entry with a name and some text.
pub fn flushes_focused_entry(name: &str, text: &str) -> (flush: bool)
    ensures
        flush == (name@.len() > 0 && text@.len() > 0),
{
    name.unicode_len() > 0 && text.unicode_len() > 0
}

/// The digits typed so far, one after the other.
pub open spec fn typed_pin(digits: Seq<Seq<char>>) -> Seq<char>
    decreases digits.len(),
{
    if digits.len() == 0 {
        seq![]
    } else {
        typed_pin(digits.drop_last()) + digits.last()
    }
}

/// The digits typed so far, one after the other: what Enter hands to the
/// engine.
pub fn typed_digits(digits: &Vec<String>) -> (pin: String)
    ensures
        pin@ == typed_pin(digits@.map_values(|d: String| d@)),
{
    let ghost views = digits@.map_values(|d: String| d@);
    let mut pin = String::new();
    let n = digits.len();
    let mut i: usize = 0;
    while i < n
        invariant
            n == digits@.len(),
            views == digits@.map_values(|d: String| d@),
            i <= n,
            pin@ == typed_pin(views.subrange(0, i as int)),
        decreases n - i,
    {
        proof {
            assert(views.subrange(0, i + 1).drop_last() =~= views.subrange(0, i as int));
        }
        pin.append(digits[i].as_str());
        i = i + 1;
    }
    proof {
        assert(views.subrange(0, n as int) =~= views);
    }
    pin
}

/// Whether every one of `length` digit boxes holds exactly one character.
pub open spec fn all_digits_filled(digits: Seq<Seq<char>>, length: usize) -> bool {
    digits.len() == length && forall|i: int| 0 <= i < digits.len() ==> (#[trigger] digits[i]).len()
        == 1
}

/// The PIN the digit boxes hold, handed to the engine only once every one
/// of the `length` boxes holds its one character; `None` while any is empty.
pub fn assembled_pin(digits: &Vec<String>, length: usize) -> (pin: Option<String>)
    ensures
        match pin {
            Some(p) => all_digits_filled(digits@.map_values(|d: String| d@), length) && p@
                == typed_pin(digits@.map_values(|d: String| d@)),
            None => !all_digits_filled(digits@.map_values(|d: String| d@), length),
        },
{
    let ghost views = digits@.map_values(|d: String| d@);
    if digits.len() != length {
        return None;
    }
    let n = digits.len();
    let mut i: usize = 0;
    while i < n
        invariant
            n == digits@.len(),
            n == length,
            views == digits@.map_values(|d: String| d@),
            i <= n,
            forall|j: int| 0 <= j < i ==> (#[trigger] views[j]).len() == 1,
        decreases n - i,
    {
        if digits[i].as_str().unicode_len() != 1 {
            assert(views[i as int] == digits@[i as int]@);
            return None;
        }
        i = i + 1;
    }
    Some(typed_digits(digits))
}

/// The confirm button's style class in an inline confirmation: destructive
/// for an irrevocable destructive action, suggested otherwise. A
/// destructive confirmation also shows its warning in the error style.
pub fn confirm_button_class(destructive: bool) -> (class: &'static str)
    ensures
        class@ == if destructive {
            "destructive-action"@
        } else {
            "suggested-action"@
        },
{
    if destructive {
        "destructive-action"
    } else {
        "suggested-action"
    }
}

/// What a text input holds.
#[derive(Clone, Copy, Debug, PartialEq, Eq, Structural)]
pub enum InputType {
    Text,
    Password,
    Email,
    Phone,
}

/// The input purpose a text entry announces to input methods.
#[derive(Clone, Copy, Debug, PartialEq, Eq, Structural)]
pub enum InputPurpose {
    Email,
    Phone,
}

/// Whether an entry shows what is typed, and the purpose it announces: a
/// password is hidden, an email or phone entry announces its purpose, and a
/// text entry keeps the defaults.
pub fn input_behaviour(input: InputType) -> (r: (bool, Option<InputPurpose>))
    ensures
        r == match input {
            InputType::Text => (true, None),
            InputType::Password => (false, None),
            InputType::Email => (true, Some(InputPurpose::Email)),
            InputType::Phone => (true, Some(InputPurpose::Phone)),
        },
{
    match input {
        InputType::Text => (true, None),
        InputType::Password => (false, None),
        InputType::Email => (true, Some(InputPurpose::Email)),
        InputType::Phone => (true, Some(InputPurpose::Phone)),
    }
}

/// The instruction above the QR paste row: a machine with a camera points
/// it at the code; one without scans it with a phone.
pub fn scan_instruction(has_camera: bool) -> (text: &'static str)
    ensures
        text@ == if has_camera {
            "Point your camera at the other device's QR code, or paste the data below."@
        } else {
            "No camera detected. Scan the QR code with your phone and paste the data below."@
        },
{
    if has_camera {
        "Point your camera at the other device's QR code, or paste the data below."
    } else {
        "No camera detected. Scan the QR code with your phone and paste the data below."
    }
}

} // verus!
