use cadence_desktop::chrome::{chrome_config, ContentSource, MAIN_WINDOW_LABEL, WINDOW_TITLE};
use cadence_desktop::platform::{BuildMode, OsFamily};

#[test]
fn windows_release_chrome() {
    let c = chrome_config(OsFamily::Windows, BuildMode::Release);
    assert!(c.transparent);
    assert!(!c.shadow);
    assert_eq!(c.content, ContentSource::Embedded);
    assert_eq!(c.content.location(), "index.html");
}

#[test]
fn macos_debug_chrome() {
    let c = chrome_config(OsFamily::MacOs, BuildMode::Debug);
    assert!(c.transparent);
    assert!(c.shadow);
    assert_eq!(c.content, ContentSource::DevServer);
    assert_eq!(c.content.location(), "http://127.0.0.1:5174");
}

#[test]
fn linux_release_chrome() {
    let c = chrome_config(OsFamily::Other, BuildMode::Release);
    assert!(!c.transparent);
    assert!(c.shadow);
    assert_eq!(c.content, ContentSource::Embedded);
}

#[test]
fn window_sizes_and_decorations() {
    let c = chrome_config(OsFamily::Other, BuildMode::Debug);
    assert_eq!((c.width, c.height), (1200, 850));
    assert_eq!((c.min_width, c.min_height), (900, 640));
    assert!(!c.decorations);
    assert!(c.resizable);
    assert_eq!(MAIN_WINDOW_LABEL, "main");
    assert_eq!(WINDOW_TITLE, "@cadence/desktop");
}

#[test]
fn chrome_is_a_function_of_its_inputs() {
    for os in [OsFamily::Windows, OsFamily::MacOs, OsFamily::Other] {
        for mode in [BuildMode::Debug, BuildMode::Release] {
            assert_eq!(chrome_config(os, mode), chrome_config(os, mode));
        }
    }
}
