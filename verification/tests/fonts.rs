use vauchi_gtk::fonts::{find_data_fonts_dir, resolve_font_dir_from};

#[test]
fn find_data_fonts_dir_walks_up_from_the_executable_to_the_checkout_root() {
    let found = find_data_fonts_dir("/home/dev/checkout/target/debug/gvauchi", |path| {
        path == "/home/dev/checkout/data/fonts"
    });

    assert_eq!(found.as_deref(), Some("/home/dev/checkout/data/fonts"));
}

#[test]
fn the_nearest_fonts_directory_wins() {
    let found = find_data_fonts_dir("/a/b/c/bin/app", |path| {
        path == "/a/b/data/fonts" || path == "/a/data/fonts"
    });

    assert_eq!(found.as_deref(), Some("/a/b/data/fonts"));
}

#[test]
fn an_installed_binary_finds_no_fonts_directory() {
    let asked = std::cell::RefCell::new(Vec::new());
    let found = find_data_fonts_dir("/usr/bin/gvauchi", |path| {
        asked.borrow_mut().push(path.to_string());
        false
    });

    assert_eq!(found, None);
    assert_eq!(
        asked.into_inner(),
        vec![
            "/usr/bin/gvauchi/data/fonts",
            "/usr/bin/data/fonts",
            "/usr/data/fonts",
            "/data/fonts",
        ]
    );
}

#[test]
fn the_override_directory_wins() {
    assert_eq!(
        resolve_font_dir_from(Some("/opt/fonts".to_string()), Some("/x/target/debug/gvauchi"), |_| true),
        Some("/opt/fonts".to_string())
    );
    assert_eq!(resolve_font_dir_from(None, None, |_| true), None);
    assert_eq!(
        resolve_font_dir_from(None, Some("/x/target/debug/gvauchi"), |d| d == "/x/data/fonts"),
        Some("/x/data/fonts".to_string())
    );
}
