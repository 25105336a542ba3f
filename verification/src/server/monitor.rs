//! Watching the configuration file: which file events call for a reload, and
//! what the reload task does with each wake-up.

use vstd::prelude::*;

verus! {

/// Wake-ups that may wait for the reload task.
pub const RELOAD_BACKLOG: usize = 64;

/// Pauses that shutdown gives the watcher's thread to end.
pub const WATCHER_GRACE_PAUSES: u32 = 5;

/// Milliseconds in one such pause.
pub const WATCHER_PAUSE_MILLIS: u64 = 100;

/// What the watcher tells the reload task.
#[derive(Clone, Copy, Debug, PartialEq, Eq)]
pub enum ScanUpdateEvent {
    /// The configuration file changed: read it again.
    NeedUpdate,
    /// The hub is shutting down.
    Exit,
}

/// How a file was opened or closed.
#[derive(Clone, Copy, Debug, PartialEq, Eq)]
pub enum AccessMode {
    Any,
    Execute,
    Read,
    Write,
    Other,
}

/// An access to a file.
#[derive(Clone, Copy, Debug, PartialEq, Eq)]
pub enum AccessKind {
    Any,
    Read,
    Open(AccessMode),
    Close(AccessMode),
    Other,
}

/// Which end of a rename an event reports.
#[derive(Clone, Copy, Debug, PartialEq, Eq)]
pub enum RenameMode {
    Any,
    /// The event is on the name that the file now has.
    To,
    /// The event is on the name that the file had.
    From,
    /// One event for both names.
    Both,
    Other,
}

/// A change to a file.
#[derive(Clone, Copy, Debug, PartialEq, Eq)]
pub enum ModifyKind {
    Any,
    Data,
    Metadata,
    Name(RenameMode),
    Other,
}

/// The kind of a file event.
#[derive(Clone, Copy, Debug, PartialEq, Eq)]
pub enum FileEventKind {
    Any,
    Access(AccessKind),
    Create,
    Modify(ModifyKind),
    Remove,
    Other,
}

/// One event on the watched file, as the watcher reports it.
#[derive(Clone, Copy, Debug, PartialEq, Eq)]
pub struct FileEvent {
    /// What happened.
    pub kind: FileEventKind,
    /// Whether the watcher may have missed events, so that the file has to be
    /// looked at afresh.
    pub need_rescan: bool,
}

/// Whether a kind of event marks the end of a write: a handle that was open
/// for writing is closed, or a file is renamed into place.
pub open spec fn write_completed(kind: FileEventKind) -> bool {
    kind == FileEventKind::Access(AccessKind::Close(AccessMode::Write))
        || kind == FileEventKind::Modify(ModifyKind::Name(RenameMode::To))
        || kind == FileEventKind::Modify(ModifyKind::Name(RenameMode::Both))
}

/// Whether a file event calls for a reload.
pub open spec fn calls_for_reload(event: FileEvent) -> bool {
    write_completed(event.kind) || event.need_rescan
}

/// Decides whether a file event calls for a reload: the end of a write does,
/// and so does any event after which the file has to be looked at afresh.
/// The many events in the course of one write do not.
pub fn decide(event: FileEvent) -> (reload: bool)
    ensures
        reload == calls_for_reload(event),
{
    match event.kind {
        FileEventKind::Access(AccessKind::Close(AccessMode::Write)) => true,
        FileEventKind::Modify(ModifyKind::Name(RenameMode::To)) => true,
        FileEventKind::Modify(ModifyKind::Name(RenameMode::Both)) => true,
        _ => event.need_rescan,
    }
}

/// What the reload task does next.
#[derive(Clone, Copy, Debug, PartialEq, Eq)]
pub enum ReloadStep {
    /// Read the configuration and put its identifiers in place of the access
    /// list; a configuration that cannot be read is logged, the list stays
    /// as it is, and the task goes on.
    Reload,
    /// End the task.
    Stop,
}

/// Decides what the reload task does on a wake-up; `None` stands for a
/// watcher that is gone.
pub fn reload_step(event: Option<ScanUpdateEvent>) -> (step: ReloadStep)
    ensures
        step == (if event == Some(ScanUpdateEvent::NeedUpdate) {
            ReloadStep::Reload
        } else {
            ReloadStep::Stop
        }),
{
    match event {
        Some(ScanUpdateEvent::NeedUpdate) => ReloadStep::Reload,
        Some(ScanUpdateEvent::Exit) => ReloadStep::Stop,
        None => ReloadStep::Stop,
    }
}

} // verus!
