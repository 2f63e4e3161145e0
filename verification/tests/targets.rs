use vauchi_gtk::targets::{minimum_target_px, target_radius_css, PresentationTokens};

fn tokens(minimum_target_size: u16, corner_radius: u16) -> PresentationTokens {
    PresentationTokens {
        spacing_small: 4,
        spacing_medium: 8,
        spacing_large: 16,
        corner_radius,
        minimum_target_size,
    }
}

#[test]
fn minimum_target_px_carries_cores_value_in_gtk_units() {
    assert_eq!(minimum_target_px(&tokens(44, 8)), 44);
    assert_eq!(minimum_target_px(&tokens(48, 8)), 48);
}

#[test]
fn target_radius_css_names_the_shared_class_and_cores_radius() {
    let css = target_radius_css(&tokens(44, 12));

    assert_eq!(css, ".vauchi-target-radius { border-radius: 12px; }");
}

#[test]
fn target_radius_css_writes_zero_and_large_radii_in_decimal() {
    assert_eq!(
        target_radius_css(&tokens(44, 0)),
        ".vauchi-target-radius { border-radius: 0px; }"
    );
    assert_eq!(
        target_radius_css(&tokens(44, 65535)),
        ".vauchi-target-radius { border-radius: 65535px; }"
    );
}
