use std::cell::RefCell;

use vauchi_gtk::navigation_icons::{navigation_icon_names, resolve_icon_name};

const FALLBACK: [&str; 3] = [
    "view-app-grid",
    "view-app-grid-symbolic",
    "application-x-executable-symbolic",
];

#[test]
fn a_known_token_yields_its_table_chain() {
    assert_eq!(
        navigation_icon_names(Some("house")),
        ["go-home", "go-home-symbolic", "user-home-symbolic"]
    );
    assert_eq!(
        navigation_icon_names(Some("qrcode")),
        [
            "qr-code",
            "qr-code-symbolic",
            "view-barcode-qr-symbolic",
            "camera-photo-symbolic"
        ]
    );
    assert_eq!(
        navigation_icon_names(Some("externaldrive")),
        ["drive-harddisk", "drive-harddisk-symbolic", "media-removable-symbolic"]
    );
}

#[test]
fn surrounding_white_space_is_ignored() {
    assert_eq!(
        navigation_icon_names(Some("  person.2\n")),
        ["system-users", "system-users-symbolic"]
    );
}

#[test]
fn a_missing_blank_or_unknown_token_yields_the_fallback() {
    assert_eq!(navigation_icon_names(None), FALLBACK);
    assert_eq!(navigation_icon_names(Some("")), FALLBACK);
    assert_eq!(navigation_icon_names(Some("   ")), FALLBACK);
    assert_eq!(navigation_icon_names(Some("sparkles")), FALLBACK);
    assert_eq!(navigation_icon_names(Some("House")), FALLBACK);
}

#[test]
fn every_token_in_the_table_has_a_chain() {
    for token in [
        "person.crop.rectangle",
        "person.2",
        "qrcode",
        "folder",
        "tag",
        "mappin.and.ellipse",
        "person.badge.plus",
        "gearshape",
        "questionmark.circle",
        "key.horizontal",
        "laptopcomputer",
        "externaldrive",
        "hand.raised",
        "bubble.left.and.bubble.right",
        "list.bullet.rectangle",
        "house",
    ] {
        let names = navigation_icon_names(Some(token));
        assert_ne!(names, FALLBACK, "{token} fell back");
        assert!(names.last().unwrap().ends_with("-symbolic"));
    }
}

#[test]
fn the_first_name_the_theme_has_is_chosen() {
    let name = resolve_icon_name(Some("gearshape"), |name| name.ends_with("-symbolic"));
    assert_eq!(name, "preferences-system-symbolic");
}

#[test]
fn the_theme_is_asked_in_order_and_no_further_than_the_first_hit() {
    let asked = RefCell::new(Vec::new());
    let name = resolve_icon_name(Some("tag"), |name| {
        asked.borrow_mut().push(name.to_string());
        name == "tag-symbolic"
    });
    assert_eq!(name, "tag-symbolic");
    assert_eq!(asked.into_inner(), vec!["tag", "tag-symbolic"]);
}

#[test]
fn a_themeless_session_still_gets_the_last_candidate() {
    assert_eq!(
        resolve_icon_name(Some("folder"), |_| false),
        "folder-symbolic"
    );
    assert_eq!(
        resolve_icon_name(None, |_| false),
        "application-x-executable-symbolic"
    );
}

#[test]
fn surrounding_white_space_does_not_change_the_icons() {
    assert_eq!(navigation_icon_names(Some("  house\t")), navigation_icon_names(Some("house")));
    assert_eq!(navigation_icon_names(Some("\u{3000}house\u{a0}")), navigation_icon_names(Some("house")));
    assert_eq!(navigation_icon_names(Some(" \u{2003} ")), navigation_icon_names(None));
}
