//! The watch-event classifier: turns raw filesystem notifications into the
//! small set of events the dispatcher acts on, and coalesces the bursts of
//! write notices that editors emit for a single save.

use vstd::prelude::*;

use crate::paths::is_script_path;
use crate::paths::path_is_script;

verus! {

/// A raw filesystem notification, as the watching thread hands it over:
/// the change kind and the affected path.
pub enum RawNotification {
    /// A file's content is about to change or has just changed.
    NoticeWrite(String),
    /// A file is about to disappear or has just disappeared.
    NoticeRemove(String),
    /// A new file appeared.
    Create(String),
    /// A completed write, reported after the notice.
    Write(String),
    /// A completed removal, reported after the notice.
    Remove(String),
    /// A metadata-only change.
    Chmod(String),
    /// The watcher asks for a full rescan.
    Rescan,
    /// A file moved from one path to another.
    Rename(String, String),
    /// The watcher itself failed; the text says how.
    Failure(String),
}

/// The mathematical shape of a raw notification.
pub enum RawNotificationView {
    NoticeWrite(Seq<char>),
    NoticeRemove(Seq<char>),
    Create(Seq<char>),
    Write(Seq<char>),
    Remove(Seq<char>),
    Chmod(Seq<char>),
    Rescan,
    Rename(Seq<char>, Seq<char>),
    Failure(Seq<char>),
}

impl View for RawNotification {
    type V = RawNotificationView;

    open spec fn view(&self) -> RawNotificationView {
        match self {
            RawNotification::NoticeWrite(p) => RawNotificationView::NoticeWrite(p@),
            RawNotification::NoticeRemove(p) => RawNotificationView::NoticeRemove(p@),
            RawNotification::Create(p) => RawNotificationView::Create(p@),
            RawNotification::Write(p) => RawNotificationView::Write(p@),
            RawNotification::Remove(p) => RawNotificationView::Remove(p@),
            RawNotification::Chmod(p) => RawNotificationView::Chmod(p@),
            RawNotification::Rescan => RawNotificationView::Rescan,
            RawNotification::Rename(a, b) => RawNotificationView::Rename(a@, b@),
            RawNotification::Failure(m) => RawNotificationView::Failure(m@),
        }
    }
}

/// A classified watch event, the only filesystem facts the dispatcher acts
/// on.
pub enum WatchEvent {
    /// An existing script file's content changed.
    Modified(String),
    /// A script file disappeared.
    Removed(String),
    /// A new script file appeared.
    Created(String),
    /// The watcher itself failed; fatal.
    WatchError(String),
}

/// The mathematical shape of a watch event.
pub enum WatchEventView {
    Modified(Seq<char>),
    Removed(Seq<char>),
    Created(Seq<char>),
    WatchError(Seq<char>),
}

impl View for WatchEvent {
    type V = WatchEventView;

    open spec fn view(&self) -> WatchEventView {
        match self {
            WatchEvent::Modified(p) => WatchEventView::Modified(p@),
            WatchEvent::Removed(p) => WatchEventView::Removed(p@),
            WatchEvent::Created(p) => WatchEventView::Created(p@),
            WatchEvent::WatchError(m) => WatchEventView::WatchError(m@),
        }
    }
}

/// What a raw notification classifies to. Write notices, removal notices
/// and creations of script files map to the three domain events; a watcher
/// failure is passed through as fatal; everything else, and every event
/// for a file that is not a script, is dropped.
pub open spec fn spec_classify(n: RawNotificationView) -> Option<WatchEventView> {
    match n {
        RawNotificationView::NoticeWrite(p) => if is_script_path(p) {
            Some(WatchEventView::Modified(p))
        } else {
            None
        },
        RawNotificationView::NoticeRemove(p) => if is_script_path(p) {
            Some(WatchEventView::Removed(p))
        } else {
            None
        },
        RawNotificationView::Create(p) => if is_script_path(p) {
            Some(WatchEventView::Created(p))
        } else {
            None
        },
        RawNotificationView::Failure(m) => Some(WatchEventView::WatchError(m)),
        _ => None,
    }
}

/// Classifies one raw notification.
pub fn classify(n: RawNotification) -> (r: Option<WatchEvent>)
    ensures
        match r {
            Some(e) => spec_classify(n@) == Some(e@),
            None => spec_classify(n@) is None,
        },
{
    match n {
        RawNotification::NoticeWrite(p) => {
            if path_is_script(p.as_str()) {
                Some(WatchEvent::Modified(p))
            } else {
                None
            }
        },
        RawNotification::NoticeRemove(p) => {
            if path_is_script(p.as_str()) {
                Some(WatchEvent::Removed(p))
            } else {
                None
            }
        },
        RawNotification::Create(p) => {
            if path_is_script(p.as_str()) {
                Some(WatchEvent::Created(p))
            } else {
                None
            }
        },
        RawNotification::Failure(m) => Some(WatchEvent::WatchError(m)),
        _ => None,
    }
}

/// How long after an emitted write notice further writes to the same path
/// are treated as part of the same save, in milliseconds.
pub const DEBOUNCE_WINDOW_MS: u64 = 100;

/// Coalesces bursts of write notices: remembers the last path it let
/// through and when, and swallows repeats of that path that follow within
/// the window.
pub struct Debouncer {
    /// The path of the last write notice that was let through, if any.
    pub last_path: Option<String>,
    /// When that notice was let through, in milliseconds of a monotonic
    /// clock.
    pub last_ms: u64,
}

/// Whether a write notice gets through: always for the first one or for a
/// new path, and otherwise only once the window since the last emitted
/// notice for that path has passed.
pub open spec fn debounce_emits(
    last_path: Option<Seq<char>>,
    last_ms: u64,
    path: Seq<char>,
    now_ms: u64,
) -> bool {
    match last_path {
        None => true,
        Some(lp) => lp != path || now_ms - last_ms >= DEBOUNCE_WINDOW_MS,
    }
}

impl Debouncer {
    /// A debouncer that has seen nothing yet.
    pub fn new() -> (d: Debouncer)
        ensures
            d.last_path is None,
            d.last_ms == 0,
    {
        Debouncer { last_path: None, last_ms: 0 }
    }

    /// Sees one write notice and says whether to let it through. Times are
    /// read off a monotonic clock, so they never run backwards.
    pub fn observe(&mut self, path: &String, now_ms: u64) -> (emit: bool)
        requires
            old(self).last_ms <= now_ms,
        ensures
            emit == debounce_emits(
                match old(self).last_path {
                    Some(p) => Some(p@),
                    None => None,
                },
                old(self).last_ms,
                path@,
                now_ms,
            ),
            emit ==> (final(self).last_path matches Some(p) && p@ == path@ && final(self).last_ms
                == now_ms),
            !emit ==> *final(self) == *old(self),
    {
        let emit = match &self.last_path {
            None => true,
            Some(lp) => !lp.eq(path) || now_ms - self.last_ms >= DEBOUNCE_WINDOW_MS,
        };
        if emit {
            self.last_path = Some(path.clone());
            self.last_ms = now_ms;
        }
        emit
    }
}

} // verus!
