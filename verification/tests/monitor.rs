use terminate_relay::server::monitor::{
    decide, reload_step, AccessKind, AccessMode, FileEvent, FileEventKind, ModifyKind, ReloadStep,
    RenameMode, ScanUpdateEvent, RELOAD_BACKLOG, WATCHER_GRACE_PAUSES, WATCHER_PAUSE_MILLIS,
};

fn plain(kind: FileEventKind) -> FileEvent {
    FileEvent { kind, need_rescan: false }
}

#[test]
fn watcher_grace_constants() {
    assert_eq!(WATCHER_GRACE_PAUSES, 5);
    assert_eq!(WATCHER_PAUSE_MILLIS, 100);
    assert_eq!(RELOAD_BACKLOG, 64);
}

#[test]
fn closing_after_a_write_calls_for_a_reload() {
    assert!(decide(plain(FileEventKind::Access(AccessKind::Close(AccessMode::Write)))));
}

#[test]
fn renaming_into_place_calls_for_a_reload() {
    assert!(decide(plain(FileEventKind::Modify(ModifyKind::Name(RenameMode::To)))));
    assert!(decide(plain(FileEventKind::Modify(ModifyKind::Name(RenameMode::Both)))));
}

#[test]
fn rescan_calls_for_a_reload_whatever_the_kind() {
    for kind in [
        FileEventKind::Any,
        FileEventKind::Other,
        FileEventKind::Create,
        FileEventKind::Remove,
        FileEventKind::Access(AccessKind::Read),
        FileEventKind::Modify(ModifyKind::Data),
        FileEventKind::Access(AccessKind::Close(AccessMode::Write)),
    ] {
        assert!(decide(FileEvent { kind, need_rescan: true }));
    }
}

#[test]
fn events_in_the_course_of_a_write_call_for_nothing() {
    for kind in [
        FileEventKind::Any,
        FileEventKind::Other,
        FileEventKind::Create,
        FileEventKind::Remove,
        FileEventKind::Access(AccessKind::Any),
        FileEventKind::Access(AccessKind::Read),
        FileEventKind::Access(AccessKind::Other),
        FileEventKind::Access(AccessKind::Open(AccessMode::Write)),
        FileEventKind::Access(AccessKind::Open(AccessMode::Read)),
        FileEventKind::Access(AccessKind::Close(AccessMode::Read)),
        FileEventKind::Access(AccessKind::Close(AccessMode::Any)),
        FileEventKind::Access(AccessKind::Close(AccessMode::Execute)),
        FileEventKind::Access(AccessKind::Close(AccessMode::Other)),
        FileEventKind::Modify(ModifyKind::Any),
        FileEventKind::Modify(ModifyKind::Data),
        FileEventKind::Modify(ModifyKind::Metadata),
        FileEventKind::Modify(ModifyKind::Other),
        FileEventKind::Modify(ModifyKind::Name(RenameMode::Any)),
        FileEventKind::Modify(ModifyKind::Name(RenameMode::From)),
        FileEventKind::Modify(ModifyKind::Name(RenameMode::Other)),
    ] {
        assert!(!decide(plain(kind)));
    }
}

#[test]
fn reload_task_reloads_on_need_update_and_stops_otherwise() {
    assert_eq!(reload_step(Some(ScanUpdateEvent::NeedUpdate)), ReloadStep::Reload);
    assert_eq!(reload_step(Some(ScanUpdateEvent::Exit)), ReloadStep::Stop);
    assert_eq!(reload_step(None), ReloadStep::Stop);
}
