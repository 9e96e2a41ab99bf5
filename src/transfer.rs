//! The decisions of the upload and download copy loops.
//!
//! The loop itself runs outside the library, because it reads and writes a
//! remote stream and a local file. Each iteration it asks
//! [`ProgressStore::check_cancel`] whether to stop, moves at most one chunk,
//! and hands what happened to [`ProgressStore::step`], which updates the
//! progress record and says whether to go on or to tear the stream down.
use vstd::prelude::*;

use crate::progress::{
    advanced, cancelled, cancelled_message, empty_file_message, failed, incr_transfer_size,
    init_transfer_info, mark_transfer_cancelled, mark_transfer_failure, mark_transfer_success,
    started, succeeded, TransferInfo, TransferStatus, TransferView,
};

verus! {

/// Bytes moved per loop iteration.
pub const CHUNK_SIZE: usize = 1024;

/// The state of the cancel signal.
#[derive(PartialEq, Eq, Structural, Clone, Copy, Debug)]
pub enum CancelState {
    /// Nothing asked.
    Idle,
    /// The user asked to stop; the loop has not seen it yet.
    Armed,
    /// The loop saw the request and stopped.
    Consumed,
}

/// What one iteration of the copy loop did after the cancel check.
pub enum ChunkEvent {
    /// This many bytes were read from the source and written to the target.
    Copied(u64),
    /// The source reported its end.
    Finished,
    /// A read or a write failed, with the error's text.
    Failed(String),
}

/// What the copy loop does next.
#[derive(PartialEq, Eq, Structural, Clone, Copy, Debug)]
pub enum LoopAction {
    /// Move another chunk.
    Continue,
    /// Leave the loop and run the stream's end-of-file and close sequence.
    Teardown,
}

/// Why a transfer could not be started.
#[derive(PartialEq, Eq, Structural, Clone, Copy, Debug)]
pub enum TransferError {
    /// The local file to upload holds no bytes.
    EmptySource,
}

/// The progress record of the current transfer and the cancel signal, kept
/// together so that one lock guards both.
pub struct ProgressStore {
    task: TransferInfo,
    cancel: CancelState,
}

/// The mathematical content of a [`ProgressStore`].
pub ghost struct StoreView {
    pub task: TransferView,
    pub cancel: CancelState,
}

impl View for ProgressStore {
    type V = StoreView;

    closed spec fn view(&self) -> StoreView {
        StoreView { task: self.task@, cancel: self.cancel }
    }
}

/// A store whose transfer was just started with `total` bytes to move.
pub open spec fn begun(local_file: Seq<char>, remote_file: Seq<char>, total: u64) -> StoreView {
    StoreView { task: started(local_file, remote_file, total), cancel: CancelState::Idle }
}

/// The store after the cancel check at the top of an iteration.
pub open spec fn after_check(s: StoreView) -> StoreView {
    if s.cancel == CancelState::Armed {
        StoreView { task: cancelled(s.task), cancel: CancelState::Consumed }
    } else {
        s
    }
}

/// The store after the rest of an iteration.
pub open spec fn after_event(s: StoreView, e: ChunkEvent) -> StoreView {
    match e {
        ChunkEvent::Copied(n) => StoreView { task: advanced(s.task, n), ..s },
        ChunkEvent::Finished => StoreView { task: succeeded(s.task), ..s },
        ChunkEvent::Failed(m) => StoreView { task: failed(s.task, m@), ..s },
    }
}

/// What the loop does after an event.
pub open spec fn action_of(e: ChunkEvent) -> LoopAction {
    match e {
        ChunkEvent::Copied(_) => LoopAction::Continue,
        _ => LoopAction::Teardown,
    }
}

impl ProgressStore {
    /// A store with no transfer and no cancel request.
    pub fn new() -> (r: ProgressStore)
        ensures
            r@ == (StoreView {
                task: TransferView {
                    local_file: Seq::<char>::empty(),
                    remote_file: Seq::<char>::empty(),
                    total: 0,
                    current: 0,
                    status: TransferStatus::Idle,
                    message: Seq::<char>::empty(),
                },
                cancel: CancelState::Idle,
            }),
    {
        ProgressStore { task: TransferInfo::new(), cancel: CancelState::Idle }
    }

    /// A copy of the current progress record.
    pub fn report(&self) -> (r: TransferInfo)
        ensures
            r@ == self@.task,
    {
        self.task.snapshot()
    }

    /// The state of the cancel signal.
    pub fn cancel_state(&self) -> (r: CancelState)
        ensures
            r == self@.cancel,
    {
        self.cancel
    }

    /// Asks the running transfer to stop at its next iteration.
    pub fn cancel_transfer(&mut self)
        ensures
            final(self)@ == (StoreView { cancel: CancelState::Armed, ..old(self)@ }),
    {
        self.cancel = CancelState::Armed;
    }

    /// Starts tracking a download of `remote_size` bytes. A cancel request
    /// left from an earlier transfer is dropped.
    pub fn begin_download(&mut self, local_file: String, remote_file: String, remote_size: u64)
        ensures
            final(self)@ == begun(local_file@, remote_file@, remote_size),
    {
        self.cancel = CancelState::Idle;
        init_transfer_info(&mut self.task, local_file, remote_file, remote_size);
    }

    /// Starts tracking an upload of a local file of `local_size` bytes.
    /// An empty file is refused: the record then says so at once, and no
    /// copy loop may be started.
    pub fn begin_upload(&mut self, local_file: String, remote_file: String, local_size: u64) -> (r:
        Result<(), TransferError>)
        ensures
            local_size == 0 ==> r == Err::<(), TransferError>(TransferError::EmptySource)
                && final(self)@ == (StoreView {
                task: failed(old(self)@.task, empty_file_message()),
                ..old(self)@
            }),
            local_size > 0 ==> r is Ok && final(self)@ == begun(
                local_file@,
                remote_file@,
                local_size,
            ),
    {
        if local_size == 0 {
            mark_transfer_failure(&mut self.task, "file empty".to_owned());
            return Err(TransferError::EmptySource);
        }
        self.cancel = CancelState::Idle;
        init_transfer_info(&mut self.task, local_file, remote_file, local_size);
        Ok(())
    }

    /// The check at the top of each iteration: when a cancel request is
    /// pending it is consumed, the transfer ends as cancelled and the loop
    /// must stop.
    pub fn check_cancel(&mut self) -> (stop: bool)
        ensures
            stop == (old(self)@.cancel == CancelState::Armed),
            final(self)@ == after_check(old(self)@),
    {
        if self.cancel == CancelState::Armed {
            self.cancel = CancelState::Consumed;
            mark_transfer_cancelled(&mut self.task);
            true
        } else {
            false
        }
    }

    /// Records what an iteration did and says what the loop does next.
    pub fn step(&mut self, event: ChunkEvent) -> (r: LoopAction)
        ensures
            final(self)@ == after_event(old(self)@, event),
            r == action_of(event),
    {
        match event {
            ChunkEvent::Copied(n) => {
                incr_transfer_size(&mut self.task, n);
                LoopAction::Continue
            },
            ChunkEvent::Finished => {
                mark_transfer_success(&mut self.task);
                LoopAction::Teardown
            },
            ChunkEvent::Failed(m) => {
                mark_transfer_failure(&mut self.task, m);
                LoopAction::Teardown
            },
        }
    }
}

/// The number of bytes in all the chunks.
pub open spec fn sum_of(chunks: Seq<u64>) -> nat
    decreases chunks.len(),
{
    if chunks.len() == 0 {
        0
    } else {
        (sum_of(chunks.drop_last()) + chunks.last()) as nat
    }
}

/// The store after one loop iteration per chunk, each passing the cancel
/// check and then copying that chunk.
pub open spec fn iterate(s: StoreView, chunks: Seq<u64>) -> StoreView
    decreases chunks.len(),
{
    if chunks.len() == 0 {
        s
    } else {
        after_event(after_check(iterate(s, chunks.drop_last())), ChunkEvent::Copied(chunks.last()))
    }
}

/// Without a cancel request, the counter of a started transfer is the number
/// of bytes copied so far, as long as that fits in a `u64`.
proof fn lemma_iterate_counts(local_file: Seq<char>, remote_file: Seq<char>, total: u64, chunks: Seq<u64>)
    requires
        sum_of(chunks) <= u64::MAX,
    ensures
        ({
            let s = iterate(begun(local_file, remote_file, total), chunks);
            &&& s.task == TransferView { current: sum_of(chunks) as u64, ..started(local_file, remote_file, total) }
            &&& s.cancel == CancelState::Idle
        }),
    decreases chunks.len(),
{
    if chunks.len() > 0 {
        lemma_iterate_counts(local_file, remote_file, total, chunks.drop_last());
    }
}

/// A transfer that copies chunks adding up to its total and then meets the
/// end of its source ends as a success, with the counter equal to the total
/// and to the number of bytes copied.
pub proof fn lemma_complete_transfer(
    local_file: Seq<char>,
    remote_file: Seq<char>,
    total: u64,
    chunks: Seq<u64>,
)
    requires
        sum_of(chunks) == total,
    ensures
        ({
            let s = iterate(begun(local_file, remote_file, total), chunks);
            let f = after_event(after_check(s), ChunkEvent::Finished);
            &&& s.task.status == TransferStatus::Running
            &&& s.task.current == sum_of(chunks)
            &&& f.task.status == TransferStatus::Success
            &&& f.task.current == f.task.total
            &&& f.task.total == total
            &&& action_of(ChunkEvent::Finished) == LoopAction::Teardown
        }),
{
    lemma_iterate_counts(local_file, remote_file, total, chunks);
}

/// A cancel request made while a transfer is short of its total stops it at
/// the next cancel check: the loop goes to teardown, the record says
/// cancelled, and its counter stays below the total.
pub proof fn lemma_cancel_mid_transfer(
    local_file: Seq<char>,
    remote_file: Seq<char>,
    total: u64,
    chunks: Seq<u64>,
)
    requires
        sum_of(chunks) < total,
    ensures
        ({
            let s = iterate(begun(local_file, remote_file, total), chunks);
            let armed = StoreView { cancel: CancelState::Armed, ..s };
            let c = after_check(armed);
            &&& armed.cancel == CancelState::Armed
            &&& c.task.status == TransferStatus::Cancelled
            &&& c.task.message == cancelled_message()
            &&& c.task.current == sum_of(chunks)
            &&& c.task.current < c.task.total
            &&& c.cancel == CancelState::Consumed
        }),
{
    lemma_iterate_counts(local_file, remote_file, total, chunks);
}

/// A cancel request made while a chunk is in flight costs at most that
/// chunk: the request survives the chunk's event, and the next check stops
/// the loop with at most `CHUNK_SIZE` more bytes counted.
pub proof fn lemma_cancel_latency(s: StoreView, n: u64)
    requires
        s.cancel == CancelState::Armed,
        s.task.status == TransferStatus::Running,
        n <= CHUNK_SIZE,
    ensures
        ({
            let moved = after_event(s, ChunkEvent::Copied(n));
            let c = after_check(moved);
            &&& moved.cancel == CancelState::Armed
            &&& action_of(ChunkEvent::Copied(n)) == LoopAction::Continue
            &&& c.task.status == TransferStatus::Cancelled
            &&& c.task.current <= s.task.current + CHUNK_SIZE
            &&& c.cancel == CancelState::Consumed
        }),
{
}

} // verus!
