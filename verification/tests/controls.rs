use vauchi_gtk::controls::{
    choice_value, choice_widget, selected_choice_index, status_text, ChoiceOption, ChoiceWidget,
    InputValue,
};

fn options(count: usize) -> Vec<ChoiceOption> {
    (1..=count)
        .map(|index| ChoiceOption {
            id: format!("option_{index}"),
            label: format!("Option {index}"),
        })
        .collect()
}

/// Two- and three-way choices draw as a segmented control; a single option
/// has nothing to switch between and a fifteen-entry list would not fit in
/// a row of buttons.
#[test]
fn two_and_three_options_render_segmented_everything_else_drops_down() {
    assert_eq!(choice_widget(0), ChoiceWidget::DropDown);
    assert_eq!(choice_widget(1), ChoiceWidget::DropDown);
    assert_eq!(choice_widget(2), ChoiceWidget::Segmented);
    assert_eq!(choice_widget(3), ChoiceWidget::Segmented);
    assert_eq!(choice_widget(4), ChoiceWidget::DropDown);
    assert_eq!(choice_widget(15), ChoiceWidget::DropDown);
}

#[test]
fn the_activated_segment_emits_its_option_id_as_the_choice_value() {
    let options = options(3);

    assert_eq!(
        choice_value(&options, 1),
        InputValue::Choice(Some("option_2".to_string()))
    );
}

#[test]
fn a_segment_index_past_the_options_emits_no_choice() {
    assert_eq!(choice_value(&options(2), 2), InputValue::Choice(None));
}

#[test]
fn the_choice_starts_on_the_option_core_selected() {
    let options = options(3);
    assert_eq!(selected_choice_index(&options, Some("option_3")), Some(2));
    assert_eq!(selected_choice_index(&options, Some("option_9")), None);
    assert_eq!(selected_choice_index(&options, None), None);
}

#[test]
fn a_status_line_joins_its_present_parts() {
    assert_eq!(status_text("Backup", None, None), "Backup");
    assert_eq!(status_text("Backup", Some("2 days ago"), None), "Backup — 2 days ago");
    assert_eq!(
        status_text("Backup", Some("2 days ago"), Some("New")),
        "Backup — 2 days ago — New"
    );
    assert_eq!(status_text("Backup", None, Some("New")), "Backup — New");
}

#[test]
fn only_non_blank_captures_are_submitted() {
    assert!(vauchi_gtk::controls::is_submittable("vauchi://x"));
    assert!(vauchi_gtk::controls::is_submittable("  x "));
    assert!(!vauchi_gtk::controls::is_submittable(""));
    assert!(!vauchi_gtk::controls::is_submittable(" \t\n"));
}
