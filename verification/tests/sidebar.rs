use vauchi_gtk::presentation::InteractionId;
use vauchi_gtk::sidebar::{badge_label, NavigationItem, NavigationSpec, SidebarModel};

fn item(id: &str, selected: bool, badge_count: u32) -> NavigationItem {
    NavigationItem {
        interaction_id: InteractionId::new(id),
        label: id.to_owned(),
        accessibility_label: id.to_owned(),
        icon_token: None,
        selected,
        badge_count,
    }
}

#[test]
fn model_lists_rows_in_core_order() {
    let navigation = NavigationSpec {
        items: vec![item("first", false, 0), item("second", true, 3)],
    };

    let model = SidebarModel::from_navigation(&navigation);

    assert_eq!(
        model
            .items
            .iter()
            .map(|item| item.interaction_id.as_str())
            .collect::<Vec<_>>(),
        vec!["first", "second"],
        "rows must render in the order Core sent them"
    );
}

#[test]
fn model_finds_the_selected_index() {
    let navigation = NavigationSpec {
        items: vec![item("first", false, 0), item("second", true, 0)],
    };

    let model = SidebarModel::from_navigation(&navigation);

    assert_eq!(
        model.selected_index,
        Some(1),
        "the selected row's position must be reported so the widget \
         layer can highlight it without re-deriving Core's choice"
    );
}

#[test]
fn model_has_no_selected_index_when_core_selects_none() {
    let navigation = NavigationSpec {
        items: vec![item("first", false, 0), item("second", false, 0)],
    };

    let model = SidebarModel::from_navigation(&navigation);

    assert_eq!(model.selected_index, None);
}

#[test]
fn model_is_hidden_when_navigation_has_no_items() {
    let model = SidebarModel::from_navigation(&NavigationSpec { items: Vec::new() });

    assert!(
        model.is_hidden(),
        "a locked app or unsupported surface sends empty items, and the \
         sidebar must disappear rather than render with nothing in it"
    );
}

#[test]
fn model_is_not_hidden_with_at_least_one_item() {
    let model = SidebarModel::from_navigation(&NavigationSpec {
        items: vec![item("first", true, 0)],
    });

    assert!(!model.is_hidden());
}

#[test]
fn the_first_of_several_selected_rows_is_the_selected_one() {
    let navigation = NavigationSpec {
        items: vec![item("a", false, 0), item("b", true, 0), item("c", true, 0)],
    };

    assert_eq!(SidebarModel::from_navigation(&navigation).selected_index, Some(1));
}

#[test]
fn the_model_keeps_every_field_of_every_item() {
    let navigation = NavigationSpec {
        items: vec![item("a", false, 2), item("b", true, 0)],
    };

    let model = SidebarModel::from_navigation(&navigation);

    assert_eq!(model.items, navigation.items);
}

#[test]
fn a_badge_shows_its_count_and_a_zero_count_shows_none() {
    assert_eq!(badge_label(0), None);
    assert_eq!(badge_label(7).as_deref(), Some("7"));
    assert_eq!(badge_label(120).as_deref(), Some("120"));
}
