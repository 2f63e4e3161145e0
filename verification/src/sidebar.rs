//! The persistent navigation sidebar: what it draws of Core's navigation
//! destinations, in Core's order, and which row is selected.

use vstd::prelude::*;

use crate::presentation::InteractionId;
use crate::text::{decimal, decimal_text};

verus! {

/// One destination Core offers in the sidebar.
#[derive(Debug, PartialEq, Eq)]
pub struct NavigationItem {
    pub interaction_id: InteractionId,
    pub label: String,
    pub accessibility_label: String,
    pub icon_token: Option<String>,
    pub selected: bool,
    pub badge_count: u32,
}

/// The destinations Core publishes alongside every surface.
#[derive(Debug, PartialEq, Eq)]
pub struct NavigationSpec {
    pub items: Vec<NavigationItem>,
}

fn duplicate_token(t: &Option<String>) -> (r: Option<String>)
    ensures
        r == *t,
{
    match t {
        Some(s) => Some(s.clone()),
        None => None,
    }
}

impl NavigationItem {
    /// An identical copy.
    pub fn duplicate(&self) -> (item: NavigationItem)
        ensures
            item == *self,
    {
        NavigationItem {
            interaction_id: self.interaction_id.duplicate(),
            label: self.label.clone(),
            accessibility_label: self.accessibility_label.clone(),
            icon_token: duplicate_token(&self.icon_token),
            selected: self.selected,
            badge_count: self.badge_count,
        }
    }
}

/// The position of the first selected item.
pub open spec fn first_selected(items: Seq<NavigationItem>) -> Option<nat>
    decreases items.len(),
{
    if items.len() == 0 {
        None
    } else if items[0].selected {
        Some(0)
    } else {
        match first_selected(items.drop_first()) {
            Some(i) => Some(i + 1),
            None => None,
        }
    }
}

/// What the sidebar draws: which rows, in order, and which one (if any) is
/// selected.
#[derive(Debug, Default, PartialEq, Eq)]
pub struct SidebarModel {
    pub items: Vec<NavigationItem>,
    pub selected_index: Option<usize>,
}

proof fn lemma_first_selected_prefix(items: Seq<NavigationItem>, k: int)
    requires
        0 <= k <= items.len(),
        forall|j: int| 0 <= j < k ==> !(#[trigger] items[j]).selected,
    ensures
        first_selected(items) == (match first_selected(items.subrange(k, items.len() as int)) {
            Some(i) => Some((i + k) as nat),
            None => None,
        }),
    decreases k,
{
    if k > 0 {
        let rest = items.drop_first();
        assert forall|j: int| 0 <= j < k - 1 implies !(#[trigger] rest[j]).selected by {
            assert(rest[j] == items[j + 1]);
        }
        lemma_first_selected_prefix(rest, k - 1);
        assert(rest.subrange(k - 1, rest.len() as int) =~= items.subrange(k, items.len() as int));
        assert(!items[0].selected);
    } else {
        assert(items.subrange(0, items.len() as int) =~= items);
    }
}

impl SidebarModel {
    /// The sidebar for Core's navigation: its items in Core's order, and
    /// the position of the first one Core marked selected.
    pub fn from_navigation(navigation: &NavigationSpec) -> (model: SidebarModel)
        ensures
            model.items@ == navigation.items@,
            model.selected_index matches Some(i) ==> first_selected(navigation.items@) == Some(
                i as nat,
            ),
            model.selected_index is None ==> first_selected(navigation.items@) is None,
    {
        let ghost all = navigation.items@;
        let mut items: Vec<NavigationItem> = Vec::new();
        let mut selected_index: Option<usize> = None;
        let n = navigation.items.len();
        let mut i: usize = 0;
        while i < n
            invariant
                n == all.len(),
                all == navigation.items@,
                i <= n,
                items@ == all.subrange(0, i as int),
                match selected_index {
                    Some(s) => s < i && all[s as int].selected && forall|j: int|
                        0 <= j < s ==> !(#[trigger] all[j]).selected,
                    None => forall|j: int| 0 <= j < i ==> !(#[trigger] all[j]).selected,
                },
            decreases n - i,
        {
            let item = navigation.items[i].duplicate();
            if item.selected && selected_index.is_none() {
                selected_index = Some(i);
            }
            items.push(item);
            i = i + 1;
            assert(items@ =~= all.subrange(0, i as int));
        }
        assert(items@ =~= all);
        proof {
            match selected_index {
                Some(s) => {
                    lemma_first_selected_prefix(all, s as int);
                    assert(all.subrange(s as int, all.len() as int)[0] == all[s as int]);
                },
                None => {
                    lemma_first_selected_prefix(all, n as int);
                    assert(all.subrange(n as int, n as int).len() == 0);
                },
            }
        }
        SidebarModel { items, selected_index }
    }

    /// A sidebar with nothing to show is hidden.
    pub fn is_hidden(&self) -> (hidden: bool)
        ensures
            hidden == (self.items@.len() == 0),
    {
        self.items.len() == 0
    }
}

/// The badge drawn beside a row: its count, when there is one.
pub fn badge_label(badge_count: u32) -> (label: Option<String>)
    ensures
        badge_count == 0 ==> label is None,
        badge_count > 0 ==> (label matches Some(s) && s@ == decimal(badge_count as nat)),
{
    if badge_count > 0 {
        Some(decimal_text(badge_count as u64))
    } else {
        None
    }
}

} // verus!
