use vstd::prelude::*;
use crate::platform::{BuildMode, OsFamily};

verus! {

/// Identity of the single main window.
pub const MAIN_WINDOW_LABEL: &'static str = "main";

/// Title of the main window.
pub const WINDOW_TITLE: &'static str = "@cadence/desktop";

/// Address of the local development server, loaded by debug builds.
pub const DEV_SERVER_URL: &'static str = "http://127.0.0.1:5174";

/// Packaged entry page, loaded by release builds.
pub const APP_ENTRY: &'static str = "index.html";

/// Initial inner width of the window, in logical pixels.
pub const INITIAL_WIDTH: u32 = 1200;

/// Initial inner height of the window, in logical pixels.
pub const INITIAL_HEIGHT: u32 = 850;

/// Smallest inner width of the window, in logical pixels.
pub const MIN_WIDTH: u32 = 900;

/// Smallest inner height of the window, in logical pixels.
pub const MIN_HEIGHT: u32 = 640;

/// Where the window's content comes from.
#[derive(Clone, Copy, Debug, PartialEq, Eq, Structural)]
pub enum ContentSource {
    /// The application's packaged entry page.
    Embedded,
    /// The local development server.
    DevServer,
}

/// How the main window is built.
#[derive(Clone, Copy, Debug, PartialEq, Eq, Structural)]
pub struct WindowChromeConfig {
    pub transparent: bool,
    pub shadow: bool,
    pub content: ContentSource,
    pub min_width: u32,
    pub min_height: u32,
    pub width: u32,
    pub height: u32,
    pub decorations: bool,
    pub resizable: bool,
}

/// The chrome that `os` and `mode` call for.
pub open spec fn chrome_of(os: OsFamily, mode: BuildMode) -> WindowChromeConfig {
    WindowChromeConfig {
        transparent: os != OsFamily::Other,
        shadow: os != OsFamily::Windows,
        content: match mode {
            BuildMode::Debug => ContentSource::DevServer,
            BuildMode::Release => ContentSource::Embedded,
        },
        min_width: MIN_WIDTH,
        min_height: MIN_HEIGHT,
        width: INITIAL_WIDTH,
        height: INITIAL_HEIGHT,
        decorations: false,
        resizable: true,
    }
}

/// Computes the main window's chrome for `os` and `mode`.
pub fn chrome_config(os: OsFamily, mode: BuildMode) -> (r: WindowChromeConfig)
    ensures
        r == chrome_of(os, mode),
{
    let transparent = match os {
        OsFamily::Windows => true,
        OsFamily::MacOs => true,
        OsFamily::Other => false,
    };
    let shadow = match os {
        OsFamily::Windows => false,
        _ => true,
    };
    let content = match mode {
        BuildMode::Debug => ContentSource::DevServer,
        BuildMode::Release => ContentSource::Embedded,
    };
    WindowChromeConfig {
        transparent,
        shadow,
        content,
        min_width: MIN_WIDTH,
        min_height: MIN_HEIGHT,
        width: INITIAL_WIDTH,
        height: INITIAL_HEIGHT,
        decorations: false,
        resizable: true,
    }
}

impl ContentSource {
    /// The address or packaged path that the window loads.
    pub fn location(&self) -> (r: &'static str)
        ensures
            r@ == match *self {
                ContentSource::Embedded => APP_ENTRY@,
                ContentSource::DevServer => DEV_SERVER_URL@,
            },
    {
        match self {
            ContentSource::Embedded => APP_ENTRY,
            ContentSource::DevServer => DEV_SERVER_URL,
        }
    }
}

/// Transparency, shadow and content source follow the decision table: glass
/// without native shadow on Windows, glass with shadow on macOS, opaque with
/// shadow elsewhere; the development server in debug builds and the packaged
/// page in release builds; never native decorations.
pub proof fn lemma_chrome_table(os: OsFamily, mode: BuildMode)
    ensures
        chrome_of(os, mode).transparent == (os == OsFamily::Windows || os == OsFamily::MacOs),
        chrome_of(os, mode).shadow == (os == OsFamily::MacOs || os == OsFamily::Other),
        chrome_of(os, mode).content == (if mode == BuildMode::Debug {
            ContentSource::DevServer
        } else {
            ContentSource::Embedded
        }),
        !chrome_of(os, mode).decorations,
        chrome_of(os, mode).min_width <= chrome_of(os, mode).width,
        chrome_of(os, mode).min_height <= chrome_of(os, mode).height,
{
}

} // verus!
