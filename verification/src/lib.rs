//! A verified binding core for a webview-style HTML/JS to native bridge.
//!
//! The native bridge library runs an HTTP/WebSocket server, launches a
//! browser, and delivers UI events from its own background threads.  This
//! crate owns everything on the host side of that boundary: the callback
//! registry that maps a (window, element) pair to a handler, the typed view
//! over a delivered event, the window handle and its lifecycle, the
//! text codec used to pass binary-safe payloads, and the byte-level
//! marshalling that every foreign call crosses.  All of it is modelled over
//! plain values and verified; the unverified foreign-call shell lives
//! outside this crate and hands plain values in and out.

use vstd::prelude::*;

pub mod codec;
pub mod events;
pub mod marshal;
pub mod registry;
pub mod window;

verus! {

/// Browser choices the bridge can be asked to open a window in.
///
/// The bridge encodes each choice as a small integer on its call boundary;
/// [`Browser::to_usize`] and [`Browser::from_usize`] fix that encoding.
#[derive(Clone, Copy, PartialEq, Eq, Structural, Debug)]
pub enum Browser {
    NoBrowser,
    AnyBrowser,
    Chrome,
    Firefox,
    Edge,
    Safari,
    Chromium,
    Opera,
    Brave,
    Vivaldi,
    Epic,
    Yandex,
    ChromiumBased,
    Webview,
}

impl Browser {
    /// The integer the bridge's call boundary uses for this choice.
    pub fn to_usize(self) -> (r: usize)
        ensures
            r == self.spec_code(),
            r < 14,
    {
        match self {
            Browser::NoBrowser => 0,
            Browser::AnyBrowser => 1,
            Browser::Chrome => 2,
            Browser::Firefox => 3,
            Browser::Edge => 4,
            Browser::Safari => 5,
            Browser::Chromium => 6,
            Browser::Opera => 7,
            Browser::Brave => 8,
            Browser::Vivaldi => 9,
            Browser::Epic => 10,
            Browser::Yandex => 11,
            Browser::ChromiumBased => 12,
            Browser::Webview => 13,
        }
    }

    /// Decodes an integer received from the bridge; an unrecognized code
    /// falls back to `NoBrowser`.
    pub fn from_usize(value: usize) -> (r: Browser)
        ensures
            value < 14 ==> r.spec_code() == value,
            value >= 14 ==> r == Browser::NoBrowser,
    {
        match value {
            0 => Browser::NoBrowser,
            1 => Browser::AnyBrowser,
            2 => Browser::Chrome,
            3 => Browser::Firefox,
            4 => Browser::Edge,
            5 => Browser::Safari,
            6 => Browser::Chromium,
            7 => Browser::Opera,
            8 => Browser::Brave,
            9 => Browser::Vivaldi,
            10 => Browser::Epic,
            11 => Browser::Yandex,
            12 => Browser::ChromiumBased,
            13 => Browser::Webview,
            _ => Browser::NoBrowser,
        }
    }

    /// The boundary encoding, as a mathematical value.
    pub open spec fn spec_code(self) -> int {
        match self {
            Browser::NoBrowser => 0,
            Browser::AnyBrowser => 1,
            Browser::Chrome => 2,
            Browser::Firefox => 3,
            Browser::Edge => 4,
            Browser::Safari => 5,
            Browser::Chromium => 6,
            Browser::Opera => 7,
            Browser::Brave => 8,
            Browser::Vivaldi => 9,
            Browser::Epic => 10,
            Browser::Yandex => 11,
            Browser::ChromiumBased => 12,
            Browser::Webview => 13,
        }
    }
}

/// Round trip: every browser choice survives its boundary encoding.
pub proof fn lemma_browser_code_round_trip(b: Browser)
    ensures
        b.spec_code() < 14,
        forall|c: Browser| c.spec_code() == b.spec_code() ==> c == b,
{
}

/// Runtimes the bridge can hand third-party scripts to.
#[derive(Clone, Copy, PartialEq, Eq, Structural, Debug)]
pub enum Runtime {
    NoRuntime,
    Deno,
    NodeJs,
}

impl Runtime {
    /// The integer the bridge's call boundary uses for this runtime.
    pub fn to_usize(self) -> (r: usize)
        ensures
            r == self.spec_code(),
            r < 3,
    {
        match self {
            Runtime::NoRuntime => 0,
            Runtime::Deno => 1,
            Runtime::NodeJs => 2,
        }
    }

    /// The boundary encoding, as a mathematical value.
    pub open spec fn spec_code(self) -> int {
        match self {
            Runtime::NoRuntime => 0,
            Runtime::Deno => 1,
            Runtime::NodeJs => 2,
        }
    }
}

} // verus!
