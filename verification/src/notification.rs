//! What a desktop notification is made of. Showing it is left to the caller.

use vstd::prelude::*;
use vstd::string::*;

verus! {

/// How long a notification stays on screen, in milliseconds.
pub const NOTICE_TIMEOUT_MS: u32 = 10000;

/// A notification ready to be shown.
#[derive(Debug)]
pub struct Notice {
    /// The title line.
    pub summary: String,
    /// The text below the title.
    pub body: String,
    /// The name of the icon.
    pub icon: String,
    /// How long the notification stays on screen, in milliseconds.
    pub timeout_ms: u32,
}

/// What a notification holds, as plain text and numbers.
pub struct NoticeView {
    pub summary: Seq<char>,
    pub body: Seq<char>,
    pub icon: Seq<char>,
    pub timeout_ms: u32,
}

impl View for Notice {
    type V = NoticeView;

    open spec fn view(&self) -> NoticeView {
        NoticeView {
            summary: self.summary@,
            body: self.body@,
            icon: self.icon@,
            timeout_ms: self.timeout_ms,
        }
    }
}

/// Prepares the notifications of this program: all carry the clock icon and
/// stay on screen for ten seconds.
#[derive(Clone, Copy, Debug)]
pub struct Notifier {}

impl Notifier {
    pub fn new() -> (r: Notifier)
        ensures
            r == (Notifier {  }),
    {
        Notifier {  }
    }

    /// The notification with the given title and text.
    pub fn compose(&self, title: &str, message: &str) -> (r: Notice)
        ensures
            r@ == (NoticeView {
                summary: title@,
                body: message@,
                icon: "clock"@,
                timeout_ms: NOTICE_TIMEOUT_MS,
            }),
    {
        Notice {
            summary: String::from_str(title),
            body: String::from_str(message),
            icon: String::from_str("clock"),
            timeout_ms: NOTICE_TIMEOUT_MS,
        }
    }
}

} // verus!
