use vauchi_gtk::theme::{generate_css, FontFamilies, ThemeColors};

/// A complete theme to vary one role at a time from.
fn base_colors() -> ThemeColors {
    ThemeColors {
        bg_primary: "#1e1e2e".to_string(),
        bg_secondary: "#181825".to_string(),
        bg_tertiary: "#313244".to_string(),
        text_primary: "#cdd6f4".to_string(),
        text_secondary: "#a6adc8".to_string(),
        accent: "#89b4fa".to_string(),
        accent_dark: "#74c7ec".to_string(),
        success: "#a6e3a1".to_string(),
        error: "#f38ba8".to_string(),
        warning: "#fab387".to_string(),
        border: "#45475a".to_string(),
        focus_ring: Some("#f5c2e7".to_string()),
    }
}

/// The brand type families.
fn brand_fonts() -> FontFamilies {
    FontFamilies {
        body: "Hanken Grotesk".to_string(),
        display: "Bricolage Grotesque".to_string(),
        mono: "JetBrains Mono".to_string(),
    }
}

/// Both the standalone image node and a list row's avatar hand their
/// initials to a label carrying the `avatar` class, so the stylesheet must
/// give that class a body.
#[test]
fn generated_css_gives_the_avatar_class_a_body() {
    let css = generate_css(&base_colors(), &brand_fonts());

    assert!(
        css.contains(".avatar"),
        "no `.avatar` rule: initials render as a bare letter"
    );
    assert!(
        css.contains("border-radius"),
        "`.avatar` must round its ground, or the initials sit in a square"
    );
}

#[test]
fn generate_css_includes_all_colors() {
    let colors = ThemeColors {
        bg_primary: "#1e1e2e".to_string(),
        bg_secondary: "#181825".to_string(),
        bg_tertiary: "#313244".to_string(),
        text_primary: "#cdd6f4".to_string(),
        text_secondary: "#a6adc8".to_string(),
        accent: "#89b4fa".to_string(),
        accent_dark: "#74c7ec".to_string(),
        success: "#a6e3a1".to_string(),
        error: "#f38ba8".to_string(),
        warning: "#fab387".to_string(),
        border: "#45475a".to_string(),
        ..base_colors()
    };

    let css = generate_css(&colors, &brand_fonts());

    assert!(css.contains("#1e1e2e"), "CSS should contain bg_primary color");
    assert!(css.contains("#181825"), "CSS should contain bg_secondary color");
    assert!(css.contains("#313244"), "CSS should contain bg_tertiary color");
    assert!(css.contains("#cdd6f4"), "CSS should contain text_primary color");
    assert!(css.contains("#a6adc8"), "CSS should contain text_secondary color");
    assert!(css.contains("#89b4fa"), "CSS should contain accent color");
    assert!(css.contains("#74c7ec"), "CSS should contain accent_dark color");
    assert!(css.contains("#a6e3a1"), "CSS should contain success color");
    assert!(css.contains("#f38ba8"), "CSS should contain error color");
    assert!(css.contains("#fab387"), "CSS should contain warning color");
    assert!(css.contains("#45475a"), "CSS should contain border color");
}

#[test]
fn generate_css_has_define_color_directives() {
    let css = generate_css(&base_colors(), &brand_fonts());

    assert!(
        css.contains("@define-color vauchi_bg_primary"),
        "CSS should define vauchi_bg_primary"
    );
    assert!(
        css.contains("@define-color vauchi_accent"),
        "CSS should define vauchi_accent"
    );
    assert!(
        css.contains("@define-color vauchi_error"),
        "CSS should define vauchi_error"
    );
}

#[test]
fn generate_css_has_widget_selectors() {
    let css = generate_css(&base_colors(), &brand_fonts());

    assert!(css.contains("window {"), "CSS should style the window");
    assert!(
        css.contains(".suggested-action {"),
        "CSS should style suggested actions"
    );
    assert!(
        css.contains(".destructive-action {"),
        "CSS should style destructive actions"
    );
}

/// A serious action is consequential but reversible: the rule outlines in
/// the warning colour and never fills with it.
#[test]
fn generate_css_styles_serious_action_as_a_warning_outline_with_no_fill() {
    let css = generate_css(&base_colors(), &brand_fonts());

    assert!(
        css.contains(".serious-action {"),
        "CSS should style serious actions"
    );
    assert!(
        !css.contains("background-color: @vauchi_warning"),
        "`.serious-action` must outline, not fill, or it reads as destructive"
    );
}

#[test]
fn generate_css_draws_a_focus_ring_from_the_theme() {
    let css = generate_css(&base_colors(), &brand_fonts());

    assert!(
        css.contains(":focus-visible"),
        "CSS should draw a ring on keyboard focus"
    );
    assert!(
        css.contains("outline: 3px solid"),
        "focus ring should be a 3px outline"
    );
    assert!(
        css.contains("outline-offset: 2px"),
        "focus ring should sit clear of the widget edge"
    );
}

#[test]
fn generate_css_focus_ring_prefers_the_dedicated_theme_role_over_accent() {
    let colors = ThemeColors {
        accent: "#0000ff".to_string(),
        focus_ring: Some("#ff00ff".to_string()),
        ..base_colors()
    };

    let css = generate_css(&colors, &brand_fonts());

    assert!(
        css.contains("@define-color vauchi_focus_ring #ff00ff;"),
        "focus ring should use the theme's dedicated focus-ring colour"
    );
}

#[test]
fn generate_css_focus_ring_falls_back_to_accent_when_theme_has_none() {
    let colors = ThemeColors {
        accent: "#0000ff".to_string(),
        focus_ring: None,
        ..base_colors()
    };

    let css = generate_css(&colors, &brand_fonts());

    assert!(
        css.contains("@define-color vauchi_focus_ring #0000ff;"),
        "focus ring should fall back to accent when the theme has no focus-ring role"
    );
}

#[test]
fn generate_css_different_themes_produce_different_output() {
    let dark = ThemeColors {
        bg_primary: "#000000".to_string(),
        bg_secondary: "#111111".to_string(),
        bg_tertiary: "#222222".to_string(),
        text_primary: "#ffffff".to_string(),
        text_secondary: "#cccccc".to_string(),
        accent: "#0000ff".to_string(),
        accent_dark: "#000099".to_string(),
        success: "#00ff00".to_string(),
        error: "#ff0000".to_string(),
        warning: "#ffff00".to_string(),
        border: "#333333".to_string(),
        ..base_colors()
    };
    let light = ThemeColors {
        bg_primary: "#ffffff".to_string(),
        bg_secondary: "#eeeeee".to_string(),
        bg_tertiary: "#dddddd".to_string(),
        text_primary: "#000000".to_string(),
        text_secondary: "#333333".to_string(),
        accent: "#0066cc".to_string(),
        accent_dark: "#004488".to_string(),
        success: "#228b22".to_string(),
        error: "#cc0000".to_string(),
        warning: "#cc8800".to_string(),
        border: "#cccccc".to_string(),
        ..base_colors()
    };

    let dark_css = generate_css(&dark, &brand_fonts());
    let light_css = generate_css(&light, &brand_fonts());

    assert_ne!(
        dark_css, light_css,
        "Different themes should produce different CSS"
    );
}

/// Headings use the display family and weight, monospace text the mono
/// family, and the window rule carries the body family for everything that
/// inherits from it.
#[test]
fn generate_css_sets_font_families_from_design_tokens() {
    let css = generate_css(&base_colors(), &brand_fonts());

    assert!(
        css.contains(r#"font-family: "Hanken Grotesk""#),
        "window rule should set the body family for base widgets"
    );
    assert!(
        css.contains(r#"font-family: "Bricolage Grotesque""#),
        "`.title-2` rule should set the display family for headings"
    );
    assert!(
        css.contains("font-weight: 700"),
        "`.title-2` rule should use the display weight for headings"
    );
    assert!(
        css.contains(r#"font-family: "JetBrains Mono""#),
        "`.monospace` rule should set the mono family"
    );
}

#[test]
fn every_colour_role_is_defined_with_its_value() {
    let css = generate_css(&base_colors(), &brand_fonts());

    for line in [
        "@define-color vauchi_bg_primary #1e1e2e;",
        "@define-color vauchi_bg_secondary #181825;",
        "@define-color vauchi_bg_tertiary #313244;",
        "@define-color vauchi_text_primary #cdd6f4;",
        "@define-color vauchi_text_secondary #a6adc8;",
        "@define-color vauchi_accent #89b4fa;",
        "@define-color vauchi_accent_dark #74c7ec;",
        "@define-color vauchi_success #a6e3a1;",
        "@define-color vauchi_error #f38ba8;",
        "@define-color vauchi_warning #fab387;",
        "@define-color vauchi_border #45475a;",
        "@define-color vauchi_focus_ring #f5c2e7;",
    ] {
        assert!(css.contains(line), "missing {line}");
    }
}
