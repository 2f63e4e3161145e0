//! Decisions behind Core's input controls: how a choice is drawn, what a
//! picked option reports, which option starts selected, and how a status
//! line reads.

use vstd::prelude::*;

use crate::text::{owned, same_text, trim, trimmed};

verus! {

/// How a choice between options is drawn.
#[derive(Clone, Copy, Debug, PartialEq, Eq, Structural)]
pub enum ChoiceWidget {
    /// A row of buttons, one per option.
    Segmented,
    /// A drop-down list.
    DropDown,
}

/// Two or three options fit a segmented row; a single option has nothing
/// to switch between and a long list would not fit in a row of buttons.
pub fn choice_widget(option_count: usize) -> (widget: ChoiceWidget)
    ensures
        widget == (if option_count == 2 || option_count == 3 {
            ChoiceWidget::Segmented
        } else {
            ChoiceWidget::DropDown
        }),
{
    if option_count == 2 || option_count == 3 {
        ChoiceWidget::Segmented
    } else {
        ChoiceWidget::DropDown
    }
}

/// One option of a choice.
#[derive(Debug, PartialEq, Eq)]
pub struct ChoiceOption {
    pub id: String,
    pub label: String,
}

/// A value a control reports to Core.
#[derive(Debug, PartialEq, Eq)]
pub enum InputValue {
    Text(String),
    Boolean(bool),
    Choice(Option<String>),
}

/// The value reported when the option at `index` is picked: its id, or no
/// choice when the index is past the options.
pub fn choice_value(options: &[ChoiceOption], index: usize) -> (value: InputValue)
    ensures
        index < options@.len() ==> (value matches InputValue::Choice(Some(id)) && id@
            == options@[index as int].id@),
        index >= options@.len() ==> value == InputValue::Choice(None),
{
    if index < options.len() {
        InputValue::Choice(Some(options[index].id.clone()))
    } else {
        InputValue::Choice(None)
    }
}

/// The position of the first option whose id is `selected`.
pub open spec fn option_position(options: Seq<ChoiceOption>, selected: Seq<char>) -> Option<nat>
    decreases options.len(),
{
    if options.len() == 0 {
        None
    } else if options[0].id@ == selected {
        Some(0)
    } else {
        match option_position(options.drop_first(), selected) {
            Some(i) => Some(i + 1),
            None => None,
        }
    }
}

proof fn lemma_option_position_prefix(options: Seq<ChoiceOption>, selected: Seq<char>, k: int)
    requires
        0 <= k <= options.len(),
        forall|j: int| 0 <= j < k ==> (#[trigger] options[j]).id@ != selected,
    ensures
        option_position(options, selected) == (match option_position(
            options.subrange(k, options.len() as int),
            selected,
        ) {
            Some(i) => Some((i + k) as nat),
            None => None,
        }),
    decreases k,
{
    if k > 0 {
        let rest = options.drop_first();
        assert forall|j: int| 0 <= j < k - 1 implies (#[trigger] rest[j]).id@ != selected by {
            assert(rest[j] == options[j + 1]);
        }
        lemma_option_position_prefix(rest, selected, k - 1);
        assert(rest.subrange(k - 1, rest.len() as int) =~= options.subrange(k, options.len() as int));
        assert(options[0].id@ != selected);
    } else {
        assert(options.subrange(0, options.len() as int) =~= options);
    }
}

/// Which option a choice starts on: the first whose id Core marked
/// selected, if any.
pub fn selected_choice_index(options: &[ChoiceOption], selected: Option<&str>) -> (index: Option<
    usize,
>)
    ensures
        match selected {
            None => index is None,
            Some(s) => match option_position(options@, s@) {
                Some(i) => index == Some(i as usize),
                None => index is None,
            },
        },
{
    let s = match selected {
        Some(s) => s,
        None => return None,
    };
    let n = options.len();
    let mut i: usize = 0;
    while i < n
        invariant
            n == options@.len(),
            selected == Some(s),
            i <= n,
            forall|j: int| 0 <= j < i ==> (#[trigger] options@[j]).id@ != s@,
        decreases n - i,
    {
        if same_text(options[i].id.as_str(), s) {
            proof {
                lemma_option_position_prefix(options@, s@, i as int);
                assert(options@.subrange(i as int, n as int)[0] == options@[i as int]);
            }
            return Some(i);
        }
        i = i + 1;
    }
    proof {
        lemma_option_position_prefix(options@, s@, n as int);
        assert(options@.subrange(n as int, n as int).len() == 0);
    }
    None
}

/// A status line: the title, then the detail and the badge when present,
/// joined by " — ".
pub open spec fn status_text_spec(title: Seq<char>, detail: Option<Seq<char>>, badge: Option<Seq<char>>) -> Seq<char> {
    let with_detail = match detail {
        Some(d) => title + " — "@ + d,
        None => title,
    };
    match badge {
        Some(b) => with_detail + " — "@ + b,
        None => with_detail,
    }
}

/// An optional string, taken by its view.
pub open spec fn opt_view(s: Option<&str>) -> Option<Seq<char>> {
    match s {
        Some(t) => Some(t@),
        None => None,
    }
}

pub fn status_text(title: &str, detail: Option<&str>, badge: Option<&str>) -> (text: String)
    ensures
        text@ == status_text_spec(title@, opt_view(detail), opt_view(badge)),
{
    let mut text = owned(title);
    match detail {
        Some(d) => {
            text.append(" — ");
            text.append(d);
        },
        None => {},
    }
    match badge {
        Some(b) => {
            text.append(" — ");
            text.append(b);
        },
        None => {},
    }
    text
}

/// A captured QR text is submitted only when it holds more than white
/// space.
pub fn is_submittable(text: &str) -> (submit: bool)
    ensures
        submit == (trimmed(text@).len() > 0),
{
    trim(text).unicode_len() > 0
}

} // verus!
