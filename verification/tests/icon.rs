use dwsh::icon::{extension, IconManager, XdgIcon};
use std::path::Path;

fn icon(path: &str) -> XdgIcon {
    XdgIcon::from_path(path.as_bytes().to_vec())
}

#[test]
fn svg_files_become_vector_icons() {
    assert!(icon("/usr/share/icons/a/b.svg").is_svg());
    assert!(!icon("/usr/share/icons/a/b.png").is_svg());
    assert!(!icon("/usr/share/icons/svg").is_svg());
    assert!(!icon("/usr/share/icons/.svg").is_svg());
    assert!(!icon("/icons/b.SVG").is_svg());
    assert!(icon("b.tar.svg").is_svg());
    assert!(icon("/icons/b.svg/").is_svg());
    assert!(icon("/icons/b.svg/.").is_svg());
    assert!(!icon("/icons/b.svg/..").is_svg());
    assert_eq!(icon("/x/y.svg").path(), b"/x/y.svg");
}

#[test]
fn paths_that_are_not_utf8_are_kept_whole() {
    let mut path = b"/icons/\xff\xfe/shutdown.svg".to_vec();
    let found = XdgIcon::from_path(path.clone());
    assert!(found.is_svg());
    assert_eq!(found.path(), &path);
    path.truncate(path.len() - 3);
    path.extend_from_slice(b"\xffg");
    assert!(!XdgIcon::from_path(path).is_svg());
}

#[test]
fn extension_agrees_with_std() {
    let paths = [
        "", ".", "..", "/", "//", "a", "a.b", "a.b.c", ".a", ".a.b", "a.", "..a", "a..",
        "/x/y.svg", "/x/y.svg/", "/x/y.svg//", "/x/y.svg/.", "/x/y.svg/./", "/x/./y.png",
        "./y.png", "./", "./.", "/x/..", "x/../y.gz", "/x/.hidden", "/x/.hidden.txt",
        "/.", "a/b/", "tar.gz/", "dir.d/file", "dir.d/.",
    ];
    for p in paths {
        let expected = Path::new(p).extension().map(|e| e.as_encoded_bytes().to_vec());
        assert_eq!(extension(p.as_bytes()), expected, "path {p:?}");
    }
}

#[test]
fn missing_icon_placeholder() {
    let icon = XdgIcon::default();
    assert!(!icon.is_svg());
    assert_eq!(icon.path(), b"nope");
}

#[test]
fn theme_falls_back_to_hicolor() {
    assert_eq!(IconManager::with_configured(None).theme(), "hicolor");
    assert_eq!(IconManager::with_configured(Some("Papirus".into())).theme(), "Papirus");
}

#[test]
fn found_paths_become_icons() {
    assert!(IconManager::icon_for_found(None).is_none());
    let found = IconManager::icon_for_found(Some(b"/i/x.svg".to_vec())).unwrap();
    assert!(found.is_svg());
    assert_eq!(found.path(), b"/i/x.svg");
}

#[test]
fn lookup_agrees_with_extension() {
    let manager = IconManager::with_configured(None);
    if let Some(icon) = manager.lookup("system-shutdown-symbolic") {
        assert_eq!(icon.is_svg(), icon.path().ends_with(b".svg"));
    }
}

#[test]
fn lookup_searches_the_name_in_the_theme() {
    let manager = IconManager::with_configured(Some("Papirus".into()));
    let query = manager.query("system-reboot-symbolic");
    assert_eq!(query.name, "system-reboot-symbolic");
    assert_eq!(query.theme, "Papirus");
    assert_eq!(query.size, 0);
}

#[test]
fn found_icons_are_files_of_the_name() {
    let manager = IconManager::with_configured(None);
    for name in ["system-shutdown-symbolic", "system-reboot-symbolic", "folder", "user-home"] {
        if let Some(icon) = manager.lookup(name) {
            let file = Path::new(std::str::from_utf8(icon.path()).unwrap()).file_name().unwrap();
            let file = file.to_str().unwrap();
            assert!(
                [".svg", ".png", ".xmp"].iter().any(|ext| file == format!("{name}{ext}")),
                "{file} for {name}"
            );
        }
    }
}
