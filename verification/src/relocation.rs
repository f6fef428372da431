//! Moving the captured file to its destination.
//!
//! The library never touches the filesystem. It decides, one step at a time,
//! which filesystem operation comes next; the caller performs the operation
//! and reports what happened. A small model of a filesystem states what the
//! resulting sequence of operations achieves.

use crate::paths::{parent, path_parent};
use vstd::prelude::*;

verus! {

/// Why a relocation was abandoned.
#[derive(Clone, Copy, Debug, PartialEq, Eq, Structural)]
pub enum RelocationError {
    /// The destination path has no parent directory.
    NoDestinationDirectory,
    /// The device of the source file could not be read.
    SourceMetadata,
    /// The device of the destination directory could not be read.
    DestinationMetadata,
    /// Renaming within one device failed.
    Rename,
    /// Copying across devices failed; the source is untouched.
    Copy,
    /// The copy succeeded but the source could not be removed afterwards.
    /// This is fatal like every other failure, although both files then exist.
    RemoveSource,
}

/// One filesystem operation the caller is asked to perform, or the verdict.
#[derive(Clone, Copy, Debug, PartialEq, Eq, Structural)]
pub enum RelocationAction {
    /// Read the device identifier of the source file.
    ReadSourceDevice,
    /// Read the device identifier of the destination's parent directory.
    ReadDestinationDevice,
    /// Rename the source to the destination.
    Rename,
    /// Copy the source to the destination.
    Copy,
    /// Delete the source.
    RemoveSource,
    /// Nothing is left to do: the file is at its destination.
    Finish,
    /// Nothing more may be done: the relocation failed.
    Abort(RelocationError),
}

/// What the caller reports after performing an operation.
#[derive(Clone, Copy, Debug, PartialEq, Eq, Structural)]
pub enum FsReply {
    /// The device identifier that was read.
    Device(u64),
    /// The operation succeeded.
    Done,
    /// The operation failed.
    Failed,
}

/// Where a relocation stands.
#[derive(Clone, Copy, Debug, PartialEq, Eq, Structural)]
pub enum RelocationState {
    AwaitingSourceDevice,
    AwaitingDestinationDevice { source_device: u64 },
    AwaitingRename,
    AwaitingCopy,
    AwaitingRemoval,
    Finished,
    Aborted(RelocationError),
}

/// The paths one relocation works on.
#[derive(Clone, Debug)]
pub struct RelocationJob {
    pub source: String,
    pub destination: String,
    pub destination_directory: String,
}

/// The state that follows `state` once the caller reports `reply`, and the
/// operation to perform next.
///
/// Devices are compared once both are known: equal devices lead to a rename,
/// different ones to a copy followed by removal of the source. A reply that
/// is not the success the state waits for abandons the relocation with the
/// error of the step that was under way. Final states stay as they are.
pub open spec fn next_step(state: RelocationState, reply: FsReply) -> (
    RelocationState,
    RelocationAction,
) {
    match state {
        RelocationState::AwaitingSourceDevice => match reply {
            FsReply::Device(d) => (
                RelocationState::AwaitingDestinationDevice { source_device: d },
                RelocationAction::ReadDestinationDevice,
            ),
            _ => abandoned(RelocationError::SourceMetadata),
        },
        RelocationState::AwaitingDestinationDevice { source_device } => match reply {
            FsReply::Device(d) => if d == source_device {
                (RelocationState::AwaitingRename, RelocationAction::Rename)
            } else {
                (RelocationState::AwaitingCopy, RelocationAction::Copy)
            },
            _ => abandoned(RelocationError::DestinationMetadata),
        },
        RelocationState::AwaitingRename => match reply {
            FsReply::Done => (RelocationState::Finished, RelocationAction::Finish),
            _ => abandoned(RelocationError::Rename),
        },
        RelocationState::AwaitingCopy => match reply {
            FsReply::Done => (RelocationState::AwaitingRemoval, RelocationAction::RemoveSource),
            _ => abandoned(RelocationError::Copy),
        },
        RelocationState::AwaitingRemoval => match reply {
            FsReply::Done => (RelocationState::Finished, RelocationAction::Finish),
            _ => abandoned(RelocationError::RemoveSource),
        },
        RelocationState::Finished => (RelocationState::Finished, RelocationAction::Finish),
        RelocationState::Aborted(e) => abandoned(e),
    }
}

/// The final state and verdict for a relocation that failed with `e`.
pub open spec fn abandoned(e: RelocationError) -> (RelocationState, RelocationAction) {
    (RelocationState::Aborted(e), RelocationAction::Abort(e))
}

/// Whether `action` asks the caller to touch the filesystem's contents.
pub open spec fn mutates(action: RelocationAction) -> bool {
    action == RelocationAction::Rename || action == RelocationAction::Copy || action
        == RelocationAction::RemoveSource
}

impl RelocationState {
    /// Whether no further operation will be requested.
    pub open spec fn is_final(self) -> bool {
        self is Finished || self is Aborted
    }
}

/// The state a relocation starts in and the first operation to perform.
pub fn begin_relocation() -> (r: (RelocationState, RelocationAction))
    ensures
        r == (RelocationState::AwaitingSourceDevice, RelocationAction::ReadSourceDevice),
{
    (RelocationState::AwaitingSourceDevice, RelocationAction::ReadSourceDevice)
}

/// Advances a relocation by one reply.
pub fn step(state: RelocationState, reply: FsReply) -> (r: (RelocationState, RelocationAction))
    ensures
        r == next_step(state, reply),
{
    match state {
        RelocationState::AwaitingSourceDevice => match reply {
            FsReply::Device(d) => (
                RelocationState::AwaitingDestinationDevice { source_device: d },
                RelocationAction::ReadDestinationDevice,
            ),
            _ => abandon(RelocationError::SourceMetadata),
        },
        RelocationState::AwaitingDestinationDevice { source_device } => match reply {
            FsReply::Device(d) => {
                if d == source_device {
                    (RelocationState::AwaitingRename, RelocationAction::Rename)
                } else {
                    (RelocationState::AwaitingCopy, RelocationAction::Copy)
                }
            },
            _ => abandon(RelocationError::DestinationMetadata),
        },
        RelocationState::AwaitingRename => match reply {
            FsReply::Done => (RelocationState::Finished, RelocationAction::Finish),
            _ => abandon(RelocationError::Rename),
        },
        RelocationState::AwaitingCopy => match reply {
            FsReply::Done => (RelocationState::AwaitingRemoval, RelocationAction::RemoveSource),
            _ => abandon(RelocationError::Copy),
        },
        RelocationState::AwaitingRemoval => match reply {
            FsReply::Done => (RelocationState::Finished, RelocationAction::Finish),
            _ => abandon(RelocationError::RemoveSource),
        },
        RelocationState::Finished => (RelocationState::Finished, RelocationAction::Finish),
        RelocationState::Aborted(e) => abandon(e),
    }
}

fn abandon(e: RelocationError) -> (r: (RelocationState, RelocationAction))
    ensures
        r == abandoned(e),
{
    (RelocationState::Aborted(e), RelocationAction::Abort(e))
}

impl RelocationJob {
    /// The job as the filesystem model sees it.
    pub open spec fn model(self) -> ModelJob {
        ModelJob {
            source: self.source@,
            destination: self.destination@,
            destination_directory: self.destination_directory@,
        }
    }

    /// The job that moves `source` to `destination`, or
    /// `NoDestinationDirectory` when the destination has no parent directory.
    pub fn new(source: String, destination: String) -> (r: Result<RelocationJob, RelocationError>)
        ensures
            match r {
                Ok(job) => {
                    &&& job.source@ == source@
                    &&& job.destination@ == destination@
                    &&& path_parent(destination@) == Some(job.destination_directory@)
                },
                Err(e) => {
                    &&& e == RelocationError::NoDestinationDirectory
                    &&& path_parent(destination@) is None
                },
            },
    {
        match parent(destination.as_str()) {
            Some(destination_directory) => Ok(
                RelocationJob { source, destination, destination_directory },
            ),
            None => Err(RelocationError::NoDestinationDirectory),
        }
    }
}

/// A filesystem reduced to what a relocation can observe: the content of each
/// file, and the device each file or directory lives on.
pub struct FsModel {
    pub files: Map<Seq<char>, Seq<u8>>,
    pub devices: Map<Seq<char>, u64>,
}

/// Which mutating operations are made to fail in a simulated run.
pub struct Faults {
    pub rename_fails: bool,
    pub copy_fails: bool,
    pub remove_fails: bool,
}

/// The paths of a simulated relocation.
pub struct ModelJob {
    pub source: Seq<char>,
    pub destination: Seq<char>,
    pub destination_directory: Seq<char>,
}

/// The filesystem after the caller attempts `action`, and the reply it gives.
///
/// Reading a device succeeds where the path has one. A rename moves the
/// source's content to the destination; a copy duplicates it; a removal
/// deletes the source. An operation that fails leaves the filesystem as it
/// was.
pub open spec fn perform(fs: FsModel, job: ModelJob, action: RelocationAction, faults: Faults) -> (
    FsModel,
    FsReply,
) {
    match action {
        RelocationAction::ReadSourceDevice => if fs.devices.contains_key(job.source) {
            (fs, FsReply::Device(fs.devices[job.source]))
        } else {
            (fs, FsReply::Failed)
        },
        RelocationAction::ReadDestinationDevice => if fs.devices.contains_key(
            job.destination_directory,
        ) {
            (fs, FsReply::Device(fs.devices[job.destination_directory]))
        } else {
            (fs, FsReply::Failed)
        },
        RelocationAction::Rename => if !faults.rename_fails && fs.files.contains_key(job.source) {
            (
                FsModel {
                    files: fs.files.remove(job.source).insert(
                        job.destination,
                        fs.files[job.source],
                    ),
                    devices: fs.devices,
                },
                FsReply::Done,
            )
        } else {
            (fs, FsReply::Failed)
        },
        RelocationAction::Copy => if !faults.copy_fails && fs.files.contains_key(job.source) {
            (
                FsModel {
                    files: fs.files.insert(job.destination, fs.files[job.source]),
                    devices: fs.devices,
                },
                FsReply::Done,
            )
        } else {
            (fs, FsReply::Failed)
        },
        RelocationAction::RemoveSource => if !faults.remove_fails && fs.files.contains_key(
            job.source,
        ) {
            (FsModel { files: fs.files.remove(job.source), devices: fs.devices }, FsReply::Done)
        } else {
            (fs, FsReply::Failed)
        },
        _ => (fs, FsReply::Done),
    }
}

/// Runs a relocation against the model for at most `fuel` operations,
/// starting in `state` with `action` pending.
pub open spec fn run(
    fs: FsModel,
    job: ModelJob,
    faults: Faults,
    state: RelocationState,
    action: RelocationAction,
    fuel: nat,
) -> (FsModel, RelocationState)
    decreases fuel,
{
    if fuel == 0 || state.is_final() {
        (fs, state)
    } else {
        let (after, reply) = perform(fs, job, action, faults);
        let (next_state, next_action) = next_step(state, reply);
        run(after, job, faults, next_state, next_action, (fuel - 1) as nat)
    }
}

/// The filesystem and final state after a whole relocation against the model.
pub open spec fn relocate(fs: FsModel, job: ModelJob, faults: Faults) -> (FsModel, RelocationState) {
    run(
        fs,
        job,
        faults,
        RelocationState::AwaitingSourceDevice,
        RelocationAction::ReadSourceDevice,
        4,
    )
}

/// A relocation never asks for more than four operations: after four replies
/// the state is final, whatever the replies were.
pub proof fn relocation_terminates(r1: FsReply, r2: FsReply, r3: FsReply, r4: FsReply)
    ensures
        ({
            let s1 = next_step(RelocationState::AwaitingSourceDevice, r1).0;
            let s2 = next_step(s1, r2).0;
            let s3 = next_step(s2, r3).0;
            let s4 = next_step(s3, r4).0;
            s4.is_final()
        }),
{
}

/// Once a relocation has failed or finished, no reply makes it request
/// another operation on the filesystem.
pub proof fn final_states_request_nothing(state: RelocationState, reply: FsReply)
    requires
        state.is_final(),
    ensures
        next_step(state, reply).0 == state,
        !mutates(next_step(state, reply).1),
{
}

/// On one device a relocation is a single rename: it finishes, the source is
/// gone, the destination holds what the source held, and every other file is
/// as it was.
pub proof fn same_device_relocation_is_rename(fs: FsModel, job: ModelJob, faults: Faults)
    requires
        fs.files.contains_key(job.source),
        fs.devices.contains_key(job.source),
        fs.devices.contains_key(job.destination_directory),
        fs.devices[job.source] == fs.devices[job.destination_directory],
        job.source != job.destination,
        !faults.rename_fails,
    ensures
        relocate(fs, job, faults).1 == RelocationState::Finished,
        !relocate(fs, job, faults).0.files.contains_key(job.source),
        relocate(fs, job, faults).0.files.contains_key(job.destination),
        relocate(fs, job, faults).0.files[job.destination] == fs.files[job.source],
        relocate(fs, job, faults).0 == perform(fs, job, RelocationAction::Rename, faults).0,
        forall|p: Seq<char>|
            p != job.source && p != job.destination ==> (#[trigger] relocate(
                fs,
                job,
                faults,
            ).0.files.contains_key(p) == fs.files.contains_key(p)) && relocate(
                fs,
                job,
                faults,
            ).0.files[p] == fs.files[p],
{
    reveal_with_fuel(run, 5);
}

/// Across devices a relocation copies and then removes: it finishes, the
/// destination holds exactly what the source held, and the source is gone.
pub proof fn cross_device_relocation_copies_then_removes(
    fs: FsModel,
    job: ModelJob,
    faults: Faults,
)
    requires
        fs.files.contains_key(job.source),
        fs.devices.contains_key(job.source),
        fs.devices.contains_key(job.destination_directory),
        fs.devices[job.source] != fs.devices[job.destination_directory],
        job.source != job.destination,
        !faults.copy_fails,
        !faults.remove_fails,
    ensures
        relocate(fs, job, faults).1 == RelocationState::Finished,
        !relocate(fs, job, faults).0.files.contains_key(job.source),
        relocate(fs, job, faults).0.files.contains_key(job.destination),
        relocate(fs, job, faults).0.files[job.destination] == fs.files[job.source],
        forall|p: Seq<char>|
            p != job.source && p != job.destination ==> (#[trigger] relocate(
                fs,
                job,
                faults,
            ).0.files.contains_key(p) == fs.files.contains_key(p)) && relocate(
                fs,
                job,
                faults,
            ).0.files[p] == fs.files[p],
{
    reveal_with_fuel(run, 5);
}

/// Across devices, a copy that fails abandons the relocation with the
/// filesystem untouched: the source still holds its content, and a
/// destination that did not exist still does not.
pub proof fn failed_copy_leaves_source_untouched(fs: FsModel, job: ModelJob, faults: Faults)
    requires
        fs.files.contains_key(job.source),
        fs.devices.contains_key(job.source),
        fs.devices.contains_key(job.destination_directory),
        fs.devices[job.source] != fs.devices[job.destination_directory],
        faults.copy_fails,
    ensures
        relocate(fs, job, faults).1 == RelocationState::Aborted(RelocationError::Copy),
        relocate(fs, job, faults).0 == fs,
        relocate(fs, job, faults).0.files.contains_key(job.source),
        relocate(fs, job, faults).0.files[job.source] == fs.files[job.source],
        !fs.files.contains_key(job.destination) ==> !relocate(
            fs,
            job,
            faults,
        ).0.files.contains_key(job.destination),
{
    reveal_with_fuel(run, 5);
}

/// Across devices, a removal that fails after a successful copy abandons the
/// relocation with both files present and equal.
pub proof fn failed_removal_leaves_both_files(fs: FsModel, job: ModelJob, faults: Faults)
    requires
        fs.files.contains_key(job.source),
        fs.devices.contains_key(job.source),
        fs.devices.contains_key(job.destination_directory),
        fs.devices[job.source] != fs.devices[job.destination_directory],
        job.source != job.destination,
        !faults.copy_fails,
        faults.remove_fails,
    ensures
        relocate(fs, job, faults).1 == RelocationState::Aborted(RelocationError::RemoveSource),
        relocate(fs, job, faults).0.files.contains_key(job.source),
        relocate(fs, job, faults).0.files[job.source] == fs.files[job.source],
        relocate(fs, job, faults).0.files[job.destination] == fs.files[job.source],
{
    reveal_with_fuel(run, 5);
}

/// Where a device cannot be read, the relocation is abandoned before any
/// operation changes the filesystem.
pub proof fn unreadable_device_changes_nothing(fs: FsModel, job: ModelJob, faults: Faults)
    requires
        !fs.devices.contains_key(job.source) || !fs.devices.contains_key(
            job.destination_directory,
        ),
    ensures
        relocate(fs, job, faults).0 == fs,
        relocate(fs, job, faults).1 == (if !fs.devices.contains_key(job.source) {
            RelocationState::Aborted(RelocationError::SourceMetadata)
        } else {
            RelocationState::Aborted(RelocationError::DestinationMetadata)
        }),
{
    reveal_with_fuel(run, 5);
}

} // verus!
