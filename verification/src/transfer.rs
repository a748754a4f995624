//! Copying and moving: the dialog that asks, starts the work and follows it.
//!
//! The work itself is done elsewhere, by a worker that reports through a
//! channel. The dialog is told what came out of the channel and says when
//! the worker has to be started.

use vstd::prelude::*;
use crate::keys::{is_arrow, is_enter, key_is_arrow, key_is_enter, Buttons, Key};
use crate::path::{path_text, PanelPath};
use crate::progress::{calculate_progress_percentage, progress_percentage};

verus! {

/// The size of the buffer through which a worker moves the bytes.
pub const TRANSFER_BUFFER_SIZE: usize = 8 * 1024 * 1024;

/// How far the transfer of a directory has come.
#[derive(Clone, Debug, PartialEq)]
pub struct DirTransitProcess {
    /// The bytes done, of the whole directory.
    pub copied_bytes: u64,
    /// The bytes of the whole directory.
    pub total_bytes: u64,
    /// The bytes done, of the file in work.
    pub file_bytes_copied: u64,
    /// The bytes of the file in work.
    pub file_total_bytes: u64,
    /// The name of the file in work.
    pub file_name: String,
}

/// How far the transfer of a single file has come.
#[derive(Copy, Clone, Debug, PartialEq, Eq, Structural)]
pub struct FileTransitProcess {
    pub copied_bytes: u64,
    pub total_bytes: u64,
}

/// What a worker reports.
#[derive(Clone, Debug, PartialEq)]
pub enum TransferProgress {
    DirTransfer(DirTransitProcess),
    FileTransfer(FileTransitProcess),
    /// The worker has not reported yet.
    NoReport,
}

/// One report of a worker, in the same figures for a directory and for a
/// single file. For a single file the figures of the whole and of the file
/// in work are the same.
pub struct ProgressSample {
    pub bytes_done: u64,
    pub bytes_total: u64,
    pub current_file_bytes_done: u64,
    pub current_file_bytes_total: u64,
    pub current_file_name: Seq<char>,
}

/// The report as a sample; `source` is the text of the path that is
/// transferred. Without a report there is no sample.
pub open spec fn sample_of(progress: TransferProgress, source: Seq<char>) -> Option<
    ProgressSample,
> {
    match progress {
        TransferProgress::DirTransfer(dir) => Some(
            ProgressSample {
                bytes_done: dir.copied_bytes,
                bytes_total: dir.total_bytes,
                current_file_bytes_done: dir.file_bytes_copied,
                current_file_bytes_total: dir.file_total_bytes,
                current_file_name: dir.file_name@,
            },
        ),
        TransferProgress::FileTransfer(file) => Some(
            ProgressSample {
                bytes_done: file.copied_bytes,
                bytes_total: file.total_bytes,
                current_file_bytes_done: file.copied_bytes,
                current_file_bytes_total: file.total_bytes,
                current_file_name: source,
            },
        ),
        TransferProgress::NoReport => None,
    }
}

impl TransferProgress {
    /// A copy of the report.
    pub fn duplicate(&self) -> (r: TransferProgress)
        ensures
            r == *self,
    {
        match self {
            TransferProgress::DirTransfer(dir) => TransferProgress::DirTransfer(
                DirTransitProcess {
                    copied_bytes: dir.copied_bytes,
                    total_bytes: dir.total_bytes,
                    file_bytes_copied: dir.file_bytes_copied,
                    file_total_bytes: dir.file_total_bytes,
                    file_name: dir.file_name.clone(),
                },
            ),
            TransferProgress::FileTransfer(file) => TransferProgress::FileTransfer(*file),
            TransferProgress::NoReport => TransferProgress::NoReport,
        }
    }

    /// The share done of the whole and of the file in work, in percent.
    /// Without a report both are 0.
    pub fn percentages(&self) -> (r: (u64, u64))
        ensures
            match sample_of(*self, Seq::empty()) {
                Some(sample) => r.0 == progress_percentage(sample.bytes_done, sample.bytes_total)
                    && r.1 == progress_percentage(
                    sample.current_file_bytes_done,
                    sample.current_file_bytes_total,
                ),
                None => r == (0u64, 0u64),
            },
    {
        match self {
            TransferProgress::DirTransfer(dir) => (
                calculate_progress_percentage(dir.copied_bytes, dir.total_bytes),
                calculate_progress_percentage(dir.file_bytes_copied, dir.file_total_bytes),
            ),
            TransferProgress::FileTransfer(file) => (
                calculate_progress_percentage(file.copied_bytes, file.total_bytes),
                calculate_progress_percentage(file.copied_bytes, file.total_bytes),
            ),
            TransferProgress::NoReport => (0, 0),
        }
    }

    /// The bytes done of the file in work, and the bytes of the whole.
    /// Without a report both are 0.
    pub fn byte_counts(&self) -> (r: (u64, u64))
        ensures
            match sample_of(*self, Seq::empty()) {
                Some(sample) => r == (sample.current_file_bytes_done, sample.bytes_total),
                None => r == (0u64, 0u64),
            },
    {
        match self {
            TransferProgress::DirTransfer(dir) => (dir.file_bytes_copied, dir.total_bytes),
            TransferProgress::FileTransfer(file) => (file.copied_bytes, file.total_bytes),
            TransferProgress::NoReport => (0, 0),
        }
    }
}

/// What is transferred.
#[derive(Copy, Clone, Debug, PartialEq, Eq, Structural)]
pub enum SourceKind {
    Directory,
    File,
    /// Neither, or nothing at all.
    Other,
}

/// What a worker has to do.
#[derive(Copy, Clone, Debug, PartialEq, Eq, Structural)]
pub enum WorkerTask {
    CopyDir,
    CopyFile,
    MoveDir,
    MoveFile,
    /// Nothing: the worker ends at once.
    Nothing,
}

/// The work for a source of the given kind: a copy, or a move if the source
/// is to be removed. A source that is neither a directory nor a file is not
/// worked on.
pub open spec fn task_for(removes_source: bool, kind: SourceKind) -> WorkerTask {
    match kind {
        SourceKind::Directory => if removes_source {
            WorkerTask::MoveDir
        } else {
            WorkerTask::CopyDir
        },
        SourceKind::File => if removes_source {
            WorkerTask::MoveFile
        } else {
            WorkerTask::CopyFile
        },
        SourceKind::Other => WorkerTask::Nothing,
    }
}

/// A way to transfer: to copy, or to move.
pub trait TransferStrategy {
    /// Whether the source is gone once the transfer is done.
    spec fn removes_source(&self) -> bool;

    /// What a worker has to do for a source of the given kind.
    fn task(&self, kind: SourceKind) -> (r: WorkerTask)
        ensures
            r == task_for(self.removes_source(), kind),
    ;

    /// The title of the dialog.
    fn title(&self) -> (r: String)
        ensures
            r@ == if self.removes_source() {
                "Move file(s)"@
            } else {
                "Copy file(s)"@
            },
    ;
}

/// Copies: the source stays.
#[derive(Copy, Clone, Debug, Default)]
pub struct CopyStrategy;

/// Moves: the source is removed once it is copied.
#[derive(Copy, Clone, Debug, Default)]
pub struct MoveStrategy;

impl TransferStrategy for CopyStrategy {
    open spec fn removes_source(&self) -> bool {
        false
    }

    fn task(&self, kind: SourceKind) -> (r: WorkerTask) {
        match kind {
            SourceKind::Directory => WorkerTask::CopyDir,
            SourceKind::File => WorkerTask::CopyFile,
            SourceKind::Other => WorkerTask::Nothing,
        }
    }

    fn title(&self) -> (r: String) {
        "Copy file(s)".to_owned()
    }
}

impl TransferStrategy for MoveStrategy {
    open spec fn removes_source(&self) -> bool {
        true
    }

    fn task(&self, kind: SourceKind) -> (r: WorkerTask) {
        match kind {
            SourceKind::Directory => WorkerTask::MoveDir,
            SourceKind::File => WorkerTask::MoveFile,
            SourceKind::Other => WorkerTask::Nothing,
        }
    }

    fn title(&self) -> (r: String) {
        "Move file(s)".to_owned()
    }
}

/// Where a single file goes: into the destination, under its own name. A
/// source without a name, the root, goes nowhere.
pub fn file_destination(source: &PanelPath, destination: &PanelPath) -> (r: Option<PanelPath>)
    ensures
        source@.len() == 0 ==> r is None,
        source@.len() > 0 ==> r is Some && r->0@ == destination@.push(source@.last()),
{
    match source.file_name() {
        Some(name) => Some(destination.join(name.as_str())),
        None => None,
    }
}

/// How far a transfer is.
#[derive(Copy, Clone, Debug, PartialEq, Eq, Structural)]
pub enum TransferDialogStatus {
    WaitingForConfirmation,
    Transfering,
    TransferFinished,
}

impl Default for TransferDialogStatus {
    fn default() -> (r: Self)
        ensures
            r == TransferDialogStatus::WaitingForConfirmation,
    {
        TransferDialogStatus::WaitingForConfirmation
    }
}

impl TransferDialogStatus {
    /// The place of the status on the way of a transfer. A transfer never
    /// goes back.
    pub open spec fn rank(self) -> nat {
        match self {
            TransferDialogStatus::WaitingForConfirmation => 0,
            TransferDialogStatus::Transfering => 1,
            TransferDialogStatus::TransferFinished => 2,
        }
    }
}

/// What came out of the channel of a worker.
#[derive(Clone, Debug, PartialEq)]
pub enum WorkerEvent {
    /// A report.
    Progress(TransferProgress),
    /// Nothing, for now.
    Idle,
    /// The worker has ended and all its reports were taken.
    Gone,
}

/// The state of a [`TransferDialog`].
pub struct TransferState {
    pub status: TransferDialogStatus,
    pub focused_button: Buttons,
    pub progress: TransferProgress,
    pub should_quit: bool,
}

impl TransferState {
    /// The state of a new dialog.
    pub open spec fn initial() -> TransferState {
        TransferState {
            status: TransferDialogStatus::WaitingForConfirmation,
            focused_button: Buttons::Confirm,
            progress: TransferProgress::NoReport,
            should_quit: false,
        }
    }

    /// Whether a confirmation starts the worker: only while the dialog
    /// waits for it.
    pub open spec fn starts_on_confirm(self) -> bool {
        self.status == TransferDialogStatus::WaitingForConfirmation
    }

    /// The state after a confirmation.
    pub open spec fn confirmed(self) -> TransferState {
        if self.starts_on_confirm() {
            TransferState { status: TransferDialogStatus::Transfering, ..self }
        } else {
            self
        }
    }

    /// The state after a cancellation: while the dialog waits, the transfer
    /// is finished without having run. A transfer under way goes on.
    pub open spec fn cancelled(self) -> TransferState {
        if self.status == TransferDialogStatus::WaitingForConfirmation {
            TransferState {
                status: TransferDialogStatus::TransferFinished,
                should_quit: true,
                ..self
            }
        } else {
            self
        }
    }

    /// The state after a look into the channel. Only a transfer under way
    /// listens: a report is kept, and the end of the worker finishes the
    /// transfer.
    pub open spec fn polled(self, event: WorkerEvent) -> TransferState {
        if self.status == TransferDialogStatus::Transfering {
            match event {
                WorkerEvent::Progress(progress) => TransferState { progress, ..self },
                WorkerEvent::Idle => self,
                WorkerEvent::Gone => TransferState {
                    status: TransferDialogStatus::TransferFinished,
                    should_quit: true,
                    ..self
                },
            }
        } else {
            self
        }
    }

    /// Whether the key starts the worker: Enter on the confirming button,
    /// while the dialog waits.
    pub open spec fn starts_on_key(self, key: Key) -> bool {
        is_enter(key) && self.focused_button == Buttons::Confirm && self.starts_on_confirm()
    }

    /// The state after a key. Enter presses the button in focus, while the
    /// dialog waits for a confirmation. An arrow moves the focus to the
    /// other button. Any other key does nothing.
    pub open spec fn keyed(self, key: Key) -> TransferState {
        if is_enter(key) {
            if self.status == TransferDialogStatus::WaitingForConfirmation {
                match self.focused_button {
                    Buttons::Confirm => self.confirmed(),
                    Buttons::Cancel => self.cancelled(),
                }
            } else {
                self
            }
        } else if is_arrow(key) {
            TransferState { focused_button: self.focused_button.other(), ..self }
        } else {
            self
        }
    }
}

/// A transfer never goes back: whatever is done to the dialog, its status
/// stays or moves on. A cancellation before the start finishes the transfer
/// without the worker ever being started.
pub proof fn lemma_transfer_never_goes_back(state: TransferState, key: Key, event: WorkerEvent)
    ensures
        state.confirmed().status.rank() >= state.status.rank(),
        state.cancelled().status.rank() >= state.status.rank(),
        state.polled(event).status.rank() >= state.status.rank(),
        state.keyed(key).status.rank() >= state.status.rank(),
        state.status == TransferDialogStatus::WaitingForConfirmation ==> state.cancelled().status
            == TransferDialogStatus::TransferFinished,
        state.status == TransferDialogStatus::TransferFinished ==> state.confirmed() == state
            && state.cancelled() == state && state.polled(event) == state,
{
}

/// The dialog of one transfer.
#[derive(Debug)]
pub struct TransferDialog<T> {
    copy_progress: TransferProgress,
    focused_button: Buttons,
    source: PanelPath,
    destination: PanelPath,
    status: TransferDialogStatus,
    strategy: T,
    should_quit: bool,
}

impl<T: TransferStrategy> TransferDialog<T> {
    /// The state of the dialog.
    pub closed spec fn state(&self) -> TransferState {
        TransferState {
            status: self.status,
            focused_button: self.focused_button,
            progress: self.copy_progress,
            should_quit: self.should_quit,
        }
    }

    /// The path that is transferred.
    pub closed spec fn source_path(&self) -> Seq<Seq<char>> {
        self.source@
    }

    /// The directory it is transferred to.
    pub closed spec fn destination_path(&self) -> Seq<Seq<char>> {
        self.destination@
    }

    /// The way it is transferred.
    pub closed spec fn transfer_strategy(&self) -> T {
        self.strategy
    }

    /// A dialog that waits for the confirmation to transfer `source` into
    /// `destination`.
    pub fn new(source: PanelPath, destination: PanelPath, transfer_model: T) -> (r: Self)
        ensures
            r.state() == TransferState::initial(),
            r.source_path() == source@,
            r.destination_path() == destination@,
            r.transfer_strategy() == transfer_model,
    {
        TransferDialog {
            copy_progress: TransferProgress::NoReport,
            focused_button: Buttons::Confirm,
            source,
            destination,
            status: TransferDialogStatus::WaitingForConfirmation,
            strategy: transfer_model,
            should_quit: false,
        }
    }

    /// Confirms the transfer. While the dialog waits it goes over to
    /// transferring, and the result says that the worker has to be started
    /// now. Later there is nothing to confirm.
    pub fn confirm(&mut self) -> (start: bool)
        ensures
            start == old(self).state().starts_on_confirm(),
            final(self).state() == old(self).state().confirmed(),
            final(self).source_path() == old(self).source_path(),
            final(self).destination_path() == old(self).destination_path(),
            final(self).transfer_strategy() == old(self).transfer_strategy(),
    {
        match self.status {
            TransferDialogStatus::WaitingForConfirmation => {
                self.status = TransferDialogStatus::Transfering;
                true
            },
            _ => false,
        }
    }

    /// Cancels the transfer before it starts: the dialog is finished, and
    /// no worker is ever started. A transfer under way cannot be cancelled.
    pub fn cancel(&mut self)
        ensures
            final(self).state() == old(self).state().cancelled(),
            final(self).source_path() == old(self).source_path(),
            final(self).destination_path() == old(self).destination_path(),
            final(self).transfer_strategy() == old(self).transfer_strategy(),
    {
        match self.status {
            TransferDialogStatus::WaitingForConfirmation => {
                self.status = TransferDialogStatus::TransferFinished;
                self.should_quit = true;
            },
            _ => {},
        }
    }

    /// Takes what came out of the channel of the worker.
    pub fn poll(&mut self, event: WorkerEvent)
        ensures
            final(self).state() == old(self).state().polled(event),
            final(self).source_path() == old(self).source_path(),
            final(self).destination_path() == old(self).destination_path(),
            final(self).transfer_strategy() == old(self).transfer_strategy(),
    {
        match self.status {
            TransferDialogStatus::Transfering => match event {
                WorkerEvent::Progress(progress) => {
                    self.copy_progress = progress;
                },
                WorkerEvent::Idle => {},
                WorkerEvent::Gone => {
                    self.status = TransferDialogStatus::TransferFinished;
                    self.should_quit = true;
                },
            },
            _ => {},
        }
    }

    /// Takes a key. The result says whether the worker has to be started
    /// now.
    pub fn handle_key(&mut self, key: Key) -> (start: bool)
        ensures
            start == old(self).state().starts_on_key(key),
            final(self).state() == old(self).state().keyed(key),
            final(self).source_path() == old(self).source_path(),
            final(self).destination_path() == old(self).destination_path(),
            final(self).transfer_strategy() == old(self).transfer_strategy(),
    {
        if key_is_enter(key) {
            match self.status {
                TransferDialogStatus::WaitingForConfirmation => match self.focused_button {
                    Buttons::Confirm => self.confirm(),
                    Buttons::Cancel => {
                        self.cancel();
                        false
                    },
                },
                _ => false,
            }
        } else if key_is_arrow(key) {
            self.focused_button.next();
            false
        } else {
            false
        }
    }

    /// What the worker has to do, for a source of the given kind.
    pub fn task(&self, kind: SourceKind) -> (r: WorkerTask)
        ensures
            r == task_for(self.transfer_strategy().removes_source(), kind),
    {
        self.strategy.task(kind)
    }

    pub fn status(&self) -> (r: TransferDialogStatus)
        ensures
            r == self.state().status,
    {
        self.status
    }

    /// The last report of the worker.
    pub fn progress(&self) -> (r: &TransferProgress)
        ensures
            *r == self.state().progress,
    {
        &self.copy_progress
    }

    pub fn focused_button(&self) -> (r: Buttons)
        ensures
            r == self.state().focused_button,
    {
        self.focused_button
    }

    /// Whether the dialog is to be closed.
    pub fn should_quit(&self) -> (r: bool)
        ensures
            r == self.state().should_quit,
    {
        self.should_quit
    }

    pub fn source(&self) -> (r: &PanelPath)
        ensures
            r@ == self.source_path(),
    {
        &self.source
    }

    pub fn destination(&self) -> (r: &PanelPath)
        ensures
            r@ == self.destination_path(),
    {
        &self.destination
    }

    /// The name of the file in work: the one the worker reported for a
    /// directory, the source itself for a single file, and nothing without a
    /// report.
    pub fn current_file_name(&self) -> (r: String)
        ensures
            r@ == match sample_of(self.state().progress, path_text(self.source_path())) {
                Some(sample) => sample.current_file_name,
                None => Seq::empty(),
            },
    {
        match &self.copy_progress {
            TransferProgress::DirTransfer(dir) => dir.file_name.clone(),
            TransferProgress::FileTransfer(_) => self.source.display(),
            TransferProgress::NoReport => String::new(),
        }
    }
}

} // verus!
