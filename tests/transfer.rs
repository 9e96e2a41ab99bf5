use rbox_core::progress::{
    clear_upload_info, incr_transfer_size, incr_upload_size, init_transfer_info,
    init_upload_info, mark_transfer_failure, mark_transfer_success, mark_upload_failure,
    TransferInfo, TransferStatus, UploadInfo,
};
use rbox_core::transfer::{
    CancelState, ChunkEvent, LoopAction, ProgressStore, TransferError, CHUNK_SIZE,
};

fn copy_all(store: &mut ProgressStore, total: u64) {
    let mut left = total;
    while left > 0 {
        assert!(!store.check_cancel());
        let n = left.min(CHUNK_SIZE as u64);
        assert_eq!(store.step(ChunkEvent::Copied(n)), LoopAction::Continue);
        left -= n;
    }
}

#[test]
fn full_upload_then_download_succeeds() {
    let n: u64 = 5000;
    let mut store = ProgressStore::new();
    assert_eq!(store.begin_upload("a.bin".to_string(), "/r/a.bin".to_string(), n), Ok(()));
    copy_all(&mut store, n);
    assert_eq!(store.report().current(), n);
    assert_eq!(store.report().status(), TransferStatus::Running);
    assert!(!store.check_cancel());
    assert_eq!(store.step(ChunkEvent::Finished), LoopAction::Teardown);
    let r = store.report();
    assert_eq!(r.status(), TransferStatus::Success);
    assert_eq!(r.current(), n);
    assert_eq!(r.total(), n);

    store.begin_download("b.bin".to_string(), "/r/a.bin".to_string(), n);
    copy_all(&mut store, n);
    assert_eq!(store.step(ChunkEvent::Finished), LoopAction::Teardown);
    let r = store.report();
    assert_eq!(r.status(), TransferStatus::Success);
    assert_eq!((r.current(), r.total()), (n, n));
    assert_eq!(r.local_file().as_str(), "b.bin");
    assert_eq!(r.remote_file().as_str(), "/r/a.bin");
}

#[test]
fn empty_upload_fails_at_once() {
    let mut store = ProgressStore::new();
    let r = store.begin_upload("empty".to_string(), "/r/empty".to_string(), 0);
    assert_eq!(r, Err(TransferError::EmptySource));
    let rep = store.report();
    assert_eq!(rep.status(), TransferStatus::Failure);
    assert_eq!(rep.message().as_str(), "file empty");
    assert_eq!(rep.status().as_str(), "failure");
}

#[test]
fn cancel_mid_transfer_stops_short() {
    let total: u64 = 10 * 1024 * 1024;
    let mut store = ProgressStore::new();
    store.begin_download("big".to_string(), "/r/big".to_string(), total);
    copy_all(&mut store, 3 * CHUNK_SIZE as u64);
    store.cancel_transfer();
    assert_eq!(store.cancel_state(), CancelState::Armed);
    assert!(store.check_cancel());
    assert_eq!(store.cancel_state(), CancelState::Consumed);
    let r = store.report();
    assert_eq!(r.status(), TransferStatus::Cancelled);
    assert_eq!(r.message().as_str(), "user cancelled");
    assert_eq!(r.current(), 3 * CHUNK_SIZE as u64);
    assert!(r.current() < r.total());
    store.begin_download("next".to_string(), "/r/next".to_string(), 10);
    assert_eq!(store.cancel_state(), CancelState::Idle);
    assert!(!store.check_cancel());
}

#[test]
fn failed_read_ends_transfer() {
    let mut store = ProgressStore::new();
    store.begin_download("x".to_string(), "/r/x".to_string(), 100);
    store.step(ChunkEvent::Copied(10));
    let a = store.step(ChunkEvent::Failed("broken pipe".to_string()));
    assert_eq!(a, LoopAction::Teardown);
    let r = store.report();
    assert_eq!(r.status(), TransferStatus::Failure);
    assert_eq!(r.message().as_str(), "broken pipe");
    assert_eq!(r.current(), 10);
}

#[test]
fn transfer_info_functions() {
    let mut info = TransferInfo::new();
    assert_eq!(info.status(), TransferStatus::Idle);
    init_transfer_info(&mut info, "l".to_string(), "r".to_string(), 40);
    incr_transfer_size(&mut info, 15);
    incr_transfer_size(&mut info, 5);
    assert_eq!(info.current(), 20);
    assert_eq!(info.status().as_str(), "running");
    mark_transfer_failure(&mut info, "oops".to_string());
    assert_eq!(info.status(), TransferStatus::Failure);
    assert_eq!(info.message().as_str(), "oops");
    mark_transfer_success(&mut info);
    assert_eq!(info.current(), 40);
    assert_eq!(info.message().as_str(), "");
    incr_transfer_size(&mut info, u64::MAX);
    assert_eq!(info.current(), u64::MAX);
}

#[test]
fn upload_info_functions() {
    let mut info = UploadInfo::new();
    init_upload_info(&mut info, "l".to_string(), "r".to_string(), 9);
    incr_upload_size(&mut info, 4);
    assert_eq!(info.upload_size(), 4);
    assert_eq!(info.total_size(), 9);
    mark_upload_failure(&mut info, "gone".to_string());
    assert_eq!(info.status(), TransferStatus::Failure);
    clear_upload_info(&mut info);
    assert_eq!(info.local_file().as_str(), "");
    assert_eq!(info.remote_file().as_str(), "");
    assert_eq!(info.message().as_str(), "gone");
    assert_eq!(info.snapshot().upload_size(), 4);
}

#[test]
fn cancel_during_a_chunk_stops_after_it() {
    let mut store = ProgressStore::new();
    store.begin_download("big".to_string(), "/r/big".to_string(), 1 << 20);
    assert!(!store.check_cancel());
    store.cancel_transfer();
    assert_eq!(store.step(ChunkEvent::Copied(CHUNK_SIZE as u64)), LoopAction::Continue);
    assert_eq!(store.cancel_state(), CancelState::Armed);
    assert!(store.check_cancel());
    let r = store.report();
    assert_eq!(r.status(), TransferStatus::Cancelled);
    assert_eq!(r.current(), CHUNK_SIZE as u64);
}
