//! The record of the one transfer whose progress the interface can poll.
use vstd::prelude::*;

verus! {

/// Where a transfer stands.
#[derive(PartialEq, Eq, Structural, Clone, Copy, Debug)]
pub enum TransferStatus {
    /// No transfer has been started.
    Idle,
    /// The copy loop is moving chunks.
    Running,
    /// The source reached its end and every byte was moved.
    Success,
    /// A read or a write failed; the message says which.
    Failure,
    /// The user asked to stop and the loop saw it.
    Cancelled,
}

impl TransferStatus {
    /// The word the interface shows for this status.
    pub fn as_str(&self) -> (r: &'static str)
        ensures
            r@ == status_word(*self),
    {
        match self {
            TransferStatus::Idle => "idle",
            TransferStatus::Running => "running",
            TransferStatus::Success => "success",
            TransferStatus::Failure => "failure",
            TransferStatus::Cancelled => "cancelled",
        }
    }
}

pub open spec fn status_word(s: TransferStatus) -> Seq<char> {
    match s {
        TransferStatus::Idle => "idle"@,
        TransferStatus::Running => "running"@,
        TransferStatus::Success => "success"@,
        TransferStatus::Failure => "failure"@,
        TransferStatus::Cancelled => "cancelled"@,
    }
}

/// The message a transfer of an empty local file fails with.
pub open spec fn empty_file_message() -> Seq<char> {
    "file empty"@
}

/// The message a transfer stopped by the user ends with.
pub open spec fn cancelled_message() -> Seq<char> {
    "user cancelled"@
}

/// Progress of one upload or download.
pub struct TransferInfo {
    local_file: String,
    remote_file: String,
    total: u64,
    current: u64,
    status: TransferStatus,
    message: String,
}

/// The mathematical content of a progress record.
pub ghost struct TransferView {
    pub local_file: Seq<char>,
    pub remote_file: Seq<char>,
    pub total: u64,
    pub current: u64,
    pub status: TransferStatus,
    pub message: Seq<char>,
}

impl View for TransferInfo {
    type V = TransferView;

    closed spec fn view(&self) -> TransferView {
        TransferView {
            local_file: self.local_file@,
            remote_file: self.remote_file@,
            total: self.total,
            current: self.current,
            status: self.status,
            message: self.message@,
        }
    }
}

/// A fresh record for a transfer of `total` bytes.
pub open spec fn started(local_file: Seq<char>, remote_file: Seq<char>, total: u64) -> TransferView {
    TransferView {
        local_file,
        remote_file,
        total,
        current: 0,
        status: TransferStatus::Running,
        message: Seq::<char>::empty(),
    }
}

/// `n` more bytes moved; the counter stops at the largest `u64`.
pub open spec fn advanced(t: TransferView, n: u64) -> TransferView {
    TransferView { current: t.current.saturating_add(n), ..t }
}

pub open spec fn failed(t: TransferView, message: Seq<char>) -> TransferView {
    TransferView { status: TransferStatus::Failure, message, ..t }
}

pub open spec fn succeeded(t: TransferView) -> TransferView {
    TransferView {
        status: TransferStatus::Success,
        current: t.total,
        message: Seq::<char>::empty(),
        ..t
    }
}

pub open spec fn cancelled(t: TransferView) -> TransferView {
    TransferView { status: TransferStatus::Cancelled, message: cancelled_message(), ..t }
}

impl TransferInfo {
    /// The record before any transfer.
    pub fn new() -> (r: TransferInfo)
        ensures
            r@ == (TransferView {
                local_file: Seq::<char>::empty(),
                remote_file: Seq::<char>::empty(),
                total: 0,
                current: 0,
                status: TransferStatus::Idle,
                message: Seq::<char>::empty(),
            }),
    {
        TransferInfo {
            local_file: String::new(),
            remote_file: String::new(),
            total: 0,
            current: 0,
            status: TransferStatus::Idle,
            message: String::new(),
        }
    }

    /// A copy of the record, for a reader that must not hold the lock.
    pub fn snapshot(&self) -> (r: TransferInfo)
        ensures
            r@ == self@,
    {
        TransferInfo {
            local_file: self.local_file.clone(),
            remote_file: self.remote_file.clone(),
            total: self.total,
            current: self.current,
            status: self.status,
            message: self.message.clone(),
        }
    }

    pub fn local_file(&self) -> (r: &String)
        ensures
            r@ == self@.local_file,
    {
        &self.local_file
    }

    pub fn remote_file(&self) -> (r: &String)
        ensures
            r@ == self@.remote_file,
    {
        &self.remote_file
    }

    pub fn total(&self) -> (r: u64)
        ensures
            r == self@.total,
    {
        self.total
    }

    pub fn current(&self) -> (r: u64)
        ensures
            r == self@.current,
    {
        self.current
    }

    pub fn status(&self) -> (r: TransferStatus)
        ensures
            r == self@.status,
    {
        self.status
    }

    pub fn message(&self) -> (r: &String)
        ensures
            r@ == self@.message,
    {
        &self.message
    }
}

/// Starts a new record: nothing moved yet, status running.
pub fn init_transfer_info(
    info: &mut TransferInfo,
    local_file: String,
    remote_file: String,
    total_size: u64,
)
    ensures
        final(info)@ == started(local_file@, remote_file@, total_size),
{
    info.local_file = local_file;
    info.remote_file = remote_file;
    info.total = total_size;
    info.current = 0;
    info.status = TransferStatus::Running;
    info.message = String::new();
}

/// Counts `size` more bytes as moved.
pub fn incr_transfer_size(info: &mut TransferInfo, size: u64)
    ensures
        final(info)@ == advanced(old(info)@, size),
{
    info.current = info.current.saturating_add(size);
}

/// Ends the transfer as failed, with the reason.
pub fn mark_transfer_failure(info: &mut TransferInfo, message: String)
    ensures
        final(info)@ == failed(old(info)@, message@),
{
    info.status = TransferStatus::Failure;
    info.message = message;
}

/// Ends the transfer as complete: every byte of the total counts as moved.
pub fn mark_transfer_success(info: &mut TransferInfo)
    ensures
        final(info)@ == succeeded(old(info)@),
{
    info.status = TransferStatus::Success;
    info.current = info.total;
    info.message = String::new();
}

/// Ends the transfer as stopped by the user; the counter keeps what was moved.
pub fn mark_transfer_cancelled(info: &mut TransferInfo)
    ensures
        final(info)@ == cancelled(old(info)@),
{
    info.status = TransferStatus::Cancelled;
    info.message = "user cancelled".to_owned();
}

/// Progress of one upload, as the synchronous upload command keeps it.
pub struct UploadInfo {
    local_file: String,
    remote_file: String,
    total_size: u64,
    upload_size: u64,
    status: TransferStatus,
    message: String,
}

impl View for UploadInfo {
    type V = TransferView;

    closed spec fn view(&self) -> TransferView {
        TransferView {
            local_file: self.local_file@,
            remote_file: self.remote_file@,
            total: self.total_size,
            current: self.upload_size,
            status: self.status,
            message: self.message@,
        }
    }
}

impl UploadInfo {
    /// The record before any upload.
    pub fn new() -> (r: UploadInfo)
        ensures
            r@ == (TransferView {
                local_file: Seq::<char>::empty(),
                remote_file: Seq::<char>::empty(),
                total: 0,
                current: 0,
                status: TransferStatus::Idle,
                message: Seq::<char>::empty(),
            }),
    {
        UploadInfo {
            local_file: String::new(),
            remote_file: String::new(),
            total_size: 0,
            upload_size: 0,
            status: TransferStatus::Idle,
            message: String::new(),
        }
    }

    /// A copy of the record.
    pub fn snapshot(&self) -> (r: UploadInfo)
        ensures
            r@ == self@,
    {
        UploadInfo {
            local_file: self.local_file.clone(),
            remote_file: self.remote_file.clone(),
            total_size: self.total_size,
            upload_size: self.upload_size,
            status: self.status,
            message: self.message.clone(),
        }
    }

    pub fn local_file(&self) -> (r: &String)
        ensures
            r@ == self@.local_file,
    {
        &self.local_file
    }

    pub fn remote_file(&self) -> (r: &String)
        ensures
            r@ == self@.remote_file,
    {
        &self.remote_file
    }

    pub fn total_size(&self) -> (r: u64)
        ensures
            r == self@.total,
    {
        self.total_size
    }

    pub fn upload_size(&self) -> (r: u64)
        ensures
            r == self@.current,
    {
        self.upload_size
    }

    pub fn status(&self) -> (r: TransferStatus)
        ensures
            r == self@.status,
    {
        self.status
    }

    pub fn message(&self) -> (r: &String)
        ensures
            r@ == self@.message,
    {
        &self.message
    }
}

/// Starts a new upload record: nothing sent yet, status running.
pub fn init_upload_info(info: &mut UploadInfo, local_file: String, remote_file: String, total_size: u64)
    ensures
        final(info)@ == started(local_file@, remote_file@, total_size),
{
    info.local_file = local_file;
    info.remote_file = remote_file;
    info.total_size = total_size;
    info.upload_size = 0;
    info.status = TransferStatus::Running;
    info.message = String::new();
}

/// Counts `size` more bytes as sent.
pub fn incr_upload_size(info: &mut UploadInfo, size: u64)
    ensures
        final(info)@ == advanced(old(info)@, size),
{
    info.upload_size = info.upload_size.saturating_add(size);
}

/// Forgets which files the finished upload moved; the counters stay.
pub fn clear_upload_info(info: &mut UploadInfo)
    ensures
        final(info)@ == (TransferView {
            local_file: Seq::<char>::empty(),
            remote_file: Seq::<char>::empty(),
            ..old(info)@
        }),
{
    info.local_file = String::new();
    info.remote_file = String::new();
}

/// Ends the upload as failed, with the reason.
pub fn mark_upload_failure(info: &mut UploadInfo, message: String)
    ensures
        final(info)@ == failed(old(info)@, message@),
{
    info.status = TransferStatus::Failure;
    info.message = message;
}

} // verus!
