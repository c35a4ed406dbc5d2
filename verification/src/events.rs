//! The watch event funnel.
//!
//! Two independent filesystem watchers (template tree, source tree)
//! deliver raw notifications; the funnel maps each to at most one
//! semantic [`WatchEvent`] for the single ordered queue the rebuild
//! driver drains. The mapping is total and pure; the watchers
//! themselves live outside the library.

use vstd::prelude::*;

use crate::paths::SitePath;

verus! {

/// A Watch Event is an event for the file watcher
pub enum WatchEvent {
    /// The template is updated
    TemplateUpdate,
    /// A source file is created or updated
    FileUpdate(SitePath),
    /// A source file is deleted
    FileRemoved(SitePath),
    /// A source file is renamed, from --> to
    FileRenamed(SitePath, SitePath),
}

/// A raw notification as a filesystem watcher reports it.
pub enum RawWatchEvent {
    /// A file was created.
    Create(SitePath),
    /// A file's content is about to be written.
    NoticeWrite(SitePath),
    /// A file's content was written.
    Write(SitePath),
    /// A file is about to be removed.
    NoticeRemove(SitePath),
    /// A file was removed.
    Remove(SitePath),
    /// A file was renamed, from --> to.
    Rename(SitePath, SitePath),
    /// A file's metadata changed.
    Chmod(SitePath),
    /// The watcher asks for a rescan.
    Rescan,
    /// The watch mechanism itself failed.
    WatchError,
}

/// What the funnel decides for one raw notification.
pub enum FunnelDecision {
    /// Enqueue this event.
    Emit(WatchEvent),
    /// Drop the notification.
    Ignore,
    /// The watch mechanism failed: fatal for the process.
    Fatal,
}

/// Maps one raw notification from the source-tree watcher to its
/// semantic event: creations and content writes upsert the document,
/// removals remove it, renames move it; notices, metadata changes and
/// rescans are dropped; a watcher error is fatal.
pub fn funnel_source_event(raw: &RawWatchEvent) -> (r: FunnelDecision)
    ensures
        match raw {
            RawWatchEvent::Create(p) => (r matches FunnelDecision::Emit(e) && e matches
                WatchEvent::FileUpdate(q) && q@ == p@),
            RawWatchEvent::NoticeWrite(p) => (r matches FunnelDecision::Emit(e) && e matches
                WatchEvent::FileUpdate(q) && q@ == p@),
            RawWatchEvent::Remove(p) => (r matches FunnelDecision::Emit(e) && e matches
                WatchEvent::FileRemoved(q) && q@ == p@),
            RawWatchEvent::Rename(a, b) => (r matches FunnelDecision::Emit(e) && e matches
                WatchEvent::FileRenamed(qa, qb) && qa@ == a@ && qb@ == b@),
            RawWatchEvent::WatchError => r is Fatal,
            _ => r is Ignore,
        },
{
    match raw {
        RawWatchEvent::Create(p) => FunnelDecision::Emit(WatchEvent::FileUpdate(p.clone())),
        RawWatchEvent::NoticeWrite(p) => FunnelDecision::Emit(WatchEvent::FileUpdate(p.clone())),
        RawWatchEvent::Remove(p) => FunnelDecision::Emit(WatchEvent::FileRemoved(p.clone())),
        RawWatchEvent::Rename(a, b) => FunnelDecision::Emit(
            WatchEvent::FileRenamed(a.clone(), b.clone()),
        ),
        RawWatchEvent::WatchError => FunnelDecision::Fatal,
        _ => FunnelDecision::Ignore,
    }
}

/// Maps one raw notification from the template-tree watcher: any
/// change anywhere under the template root invalidates every page, so
/// every notification but a watcher error becomes a template update.
pub fn funnel_template_event(raw: &RawWatchEvent) -> (r: FunnelDecision)
    ensures
        raw is WatchError ==> r is Fatal,
        !(raw is WatchError) ==> (r matches FunnelDecision::Emit(e) && e is TemplateUpdate),
{
    match raw {
        RawWatchEvent::WatchError => FunnelDecision::Fatal,
        _ => FunnelDecision::Emit(WatchEvent::TemplateUpdate),
    }
}

} // verus!
