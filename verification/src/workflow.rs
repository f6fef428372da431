//! From a capture response to the plan for saving it.

use crate::capture::{
    classify_scheme, kind_of_scheme, CaptureError, CaptureUri, Report, UriKind,
};
use crate::destination::{
    document_dir, explicit_save_dir, picture_dir, target_dir_of, KnownDirectories,
    PathResolutionError, ResolvedDestination,
};
use crate::paths::{path_parent, text_of};
use crate::relocation::{RelocationError, RelocationJob};
use crate::settings::InvocationSettings;
use crate::timestamp::{filename_text, read_local_clock, ClockReading, Timestamp};
use vstd::prelude::*;
use vstd::string::*;

verus! {

/// Why a capture could not be saved.
#[derive(Clone, Copy, Debug, PartialEq, Eq, Structural)]
pub enum SaveError {
    Capture(CaptureError),
    Path(PathResolutionError),
    Relocation(RelocationError),
}

/// What is to be done with a successful capture.
#[derive(Clone, Debug)]
pub enum SavePlan {
    /// The capture is on the clipboard: there is no file, and nothing to move.
    Clipboard,
    /// The capture is the file `source`, to be moved to `destination`.
    MoveFile { source: String, destination: ResolvedDestination },
}

/// The file a capture location denotes: none for the clipboard, the local
/// path for a file, and an error for anything else.
pub open spec fn source_of(uri: CaptureUri) -> Result<Option<Seq<char>>, CaptureError> {
    match kind_of_scheme(uri.scheme@) {
        UriKind::Clipboard => Ok(None),
        UriKind::File => match uri.file_path {
            Some(path) => Ok(Some(path@)),
            None => Err(CaptureError::NotALocalFile),
        },
        UriKind::Unsupported => Err(CaptureError::UnsupportedScheme),
    }
}

/// Directory and file name for the capture stored at `source`, from what the
/// clock and the directory lookups gave. The clock is consulted first, then
/// the pictures directory, then the documents directory.
pub open spec fn file_save_outcome(
    settings: InvocationSettings,
    source: Seq<char>,
    pictures: Option<Seq<char>>,
    documents: Option<Seq<char>>,
    clock: ClockReading,
) -> Result<(Seq<char>, Seq<char>), PathResolutionError> {
    match Timestamp::spec_from_reading(clock) {
        None => Err(PathResolutionError::ClockOutOfRange),
        Some(timestamp) => match pictures {
            None => Err(PathResolutionError::PicturesDirectoryUnknown),
            Some(pictures) => match documents {
                None => Err(PathResolutionError::DocumentsDirectoryUnknown),
                Some(documents) => match target_dir_of(settings, source, pictures, documents) {
                    Ok(directory) => Ok((directory, filename_text(timestamp))),
                    Err(e) => Err(e),
                },
            },
        },
    }
}

/// Reads the file a capture location denotes.
pub fn capture_source(uri: &CaptureUri) -> (r: Result<Option<String>, CaptureError>)
    ensures
        match r {
            Ok(path) => source_of(*uri) == Ok::<Option<Seq<char>>, CaptureError>(text_of(path)),
            Err(e) => source_of(*uri) == Err::<Option<Seq<char>>, CaptureError>(e),
        },
{
    match classify_scheme(uri.scheme.as_str()) {
        UriKind::Clipboard => Ok(None),
        UriKind::File => match &uri.file_path {
            Some(path) => Ok(Some(path.clone())),
            None => Err(CaptureError::NotALocalFile),
        },
        UriKind::Unsupported => Err(CaptureError::UnsupportedScheme),
    }
}

/// Plans the move of the capture stored at `source`, from what the clock and
/// the directory lookups gave.
pub fn plan_file_save(
    settings: &InvocationSettings,
    source: String,
    pictures: Option<String>,
    documents: Option<String>,
    clock: ClockReading,
) -> (r: Result<SavePlan, SaveError>)
    ensures
        match r {
            Ok(plan) => plan matches SavePlan::MoveFile { source: planned, destination } && {
                &&& planned@ == source@
                &&& file_save_outcome(
                    *settings,
                    source@,
                    text_of(pictures),
                    text_of(documents),
                    clock,
                ) == Ok::<(Seq<char>, Seq<char>), PathResolutionError>(
                    (destination.directory@, destination.filename@),
                )
            },
            Err(e) => e matches SaveError::Path(reason) && file_save_outcome(
                *settings,
                source@,
                text_of(pictures),
                text_of(documents),
                clock,
            ) == Err::<(Seq<char>, Seq<char>), PathResolutionError>(reason),
        },
{
    let timestamp = match Timestamp::from_reading(clock) {
        Some(timestamp) => timestamp,
        None => {
            return Err(SaveError::Path(PathResolutionError::ClockOutOfRange));
        },
    };
    let directories = match KnownDirectories::from_lookup(pictures, documents) {
        Ok(directories) => directories,
        Err(e) => {
            return Err(SaveError::Path(e));
        },
    };
    match ResolvedDestination::resolve(settings, source.as_str(), &directories, &timestamp) {
        Ok(destination) => Ok(SavePlan::MoveFile { source, destination }),
        Err(e) => Err(SaveError::Path(e)),
    }
}

/// Plans what to do with a successful capture, consulting this machine's
/// clock and well-known directories where the capture is a file.
///
/// The clipboard gives the plan that moves nothing, and an unusable location
/// gives its error, without anything being consulted. For a file, whatever
/// the clock and the lookups answer, a plan moves that very file to a
/// destination that follows from some answer, into the binding save
/// directory where the settings carry one, and a failure is a path
/// resolution error.
pub fn plan_save(settings: &InvocationSettings, uri: &CaptureUri) -> (r: Result<
    SavePlan,
    SaveError,
>)
    ensures
        source_of(*uri) matches Err(e) ==> r == Err::<SavePlan, SaveError>(SaveError::Capture(e)),
        source_of(*uri) matches Ok(None) ==> r matches Ok(SavePlan::Clipboard),
        source_of(*uri) matches Ok(Some(path)) ==> match r {
            Ok(plan) => plan matches SavePlan::MoveFile { source, destination } && source@ == path
                && exists|pictures: Option<Seq<char>>, documents: Option<Seq<char>>, clock: ClockReading|
                #[trigger] file_save_outcome(*settings, path, pictures, documents, clock) == Ok::<
                    (Seq<char>, Seq<char>),
                    PathResolutionError,
                >((destination.directory@, destination.filename@)),
            Err(e) => e is Path,
        },
        r matches Ok(SavePlan::MoveFile { source, destination }) ==> (explicit_save_dir(*settings)
            matches Some(dir) ==> destination.directory@ == dir),
{
    match capture_source(uri) {
        Err(e) => Err(SaveError::Capture(e)),
        Ok(None) => Ok(SavePlan::Clipboard),
        Ok(Some(source)) => {
            let clock = read_local_clock();
            let pictures = picture_dir();
            let documents = document_dir();
            plan_file_save(settings, source, pictures, documents, clock)
        },
    }
}

impl SavePlan {
    /// The path the program reports: empty for the clipboard, the full
    /// destination path for a file.
    pub open spec fn spec_output_path(self) -> Seq<char> {
        match self {
            SavePlan::Clipboard => Seq::empty(),
            SavePlan::MoveFile { source, destination } => destination.spec_path(),
        }
    }

    /// Whether carrying the plan out touches the filesystem.
    pub open spec fn moves_a_file(self) -> bool {
        self is MoveFile
    }

    /// The path the program reports.
    pub fn output_path(&self) -> (p: String)
        ensures
            p@ == self.spec_output_path(),
    {
        match self {
            SavePlan::Clipboard => String::new(),
            SavePlan::MoveFile { source, destination } => destination.path(),
        }
    }

    /// The directory that has to exist, parents included, before the file is
    /// moved; none for the clipboard.
    pub fn directory_to_create(&self) -> (r: Option<String>)
        ensures
            match *self {
                SavePlan::Clipboard => r is None,
                SavePlan::MoveFile { source, destination } => text_of(r) == Some(
                    destination.directory@,
                ),
            },
    {
        match self {
            SavePlan::Clipboard => None,
            SavePlan::MoveFile { source, destination } => Some(destination.directory.clone()),
        }
    }

    /// The relocation the plan calls for, once the caller has tried to create
    /// the destination directory and `directory_created` says how that went.
    ///
    /// The clipboard calls for none. A file calls for one from its source to
    /// its full destination path, unless the directory could not be created
    /// or the destination path has no parent.
    pub fn relocation_job(&self, directory_created: bool) -> (r: Result<
        Option<RelocationJob>,
        SaveError,
    >)
        ensures
            match *self {
                SavePlan::Clipboard => r matches Ok(None),
                SavePlan::MoveFile { source, destination } => if !directory_created {
                    r matches Err(SaveError::Path(PathResolutionError::DirectoryCreationFailed))
                } else if path_parent(destination.spec_path()) is None {
                    r matches Err(SaveError::Relocation(RelocationError::NoDestinationDirectory))
                } else {
                    r matches Ok(Some(job)) && {
                        &&& job.source@ == source@
                        &&& job.destination@ == destination.spec_path()
                        &&& path_parent(destination.spec_path()) == Some(
                            job.destination_directory@,
                        )
                    }
                },
            },
    {
        match self {
            SavePlan::Clipboard => Ok(None),
            SavePlan::MoveFile { source, destination } => {
                if !directory_created {
                    return Err(SaveError::Path(PathResolutionError::DirectoryCreationFailed));
                }
                match RelocationJob::new(source.clone(), destination.path()) {
                    Ok(job) => Ok(Some(job)),
                    Err(e) => Err(SaveError::Relocation(e)),
                }
            },
        }
    }
}

/// The line that describes a failure.
pub open spec fn message_text(error: SaveError) -> Seq<char> {
    match error {
        SaveError::Capture(CaptureError::InvalidUri) => "unsupported response URI"@,
        SaveError::Capture(CaptureError::UnsupportedScheme) => "unsupported scheme"@,
        SaveError::Capture(CaptureError::NotALocalFile) => "unsupported response URI"@,
        SaveError::Path(PathResolutionError::ClockOutOfRange) => "Failed to name the screenshot after the current time."@,
        SaveError::Path(PathResolutionError::PicturesDirectoryUnknown) => "Failed to locate Pictures directory."@,
        SaveError::Path(PathResolutionError::DocumentsDirectoryUnknown) => "Failed to locate Documents directory."@,
        SaveError::Path(PathResolutionError::NoContainingDirectory) => "Failed to get parent directory of source path."@,
        SaveError::Path(PathResolutionError::DirectoryCreationFailed) => "Failed to create destination directory."@,
        SaveError::Relocation(RelocationError::NoDestinationDirectory) => "Failed to get parent directory of destination path."@,
        SaveError::Relocation(RelocationError::SourceMetadata) => "Failed to get metadata on filesystem for picture source path."@,
        SaveError::Relocation(RelocationError::DestinationMetadata) => "Failed to get metadata on filesystem for picture destination."@,
        SaveError::Relocation(RelocationError::Rename) => "Failed to move screenshot."@,
        SaveError::Relocation(RelocationError::Copy) => "Failed to move screenshot."@,
        SaveError::Relocation(RelocationError::RemoveSource) => "Failed to remove temporary screenshot."@,
    }
}

/// The exit code of a run that failed after the capture succeeded.
pub const FATAL_EXIT_CODE: i32 = 101;

impl SaveError {
    /// The line that describes this failure.
    pub fn message(&self) -> (m: String)
        ensures
            m@ == message_text(*self),
    {
        let text = match self {
            SaveError::Capture(CaptureError::InvalidUri) => "unsupported response URI",
            SaveError::Capture(CaptureError::UnsupportedScheme) => "unsupported scheme",
            SaveError::Capture(CaptureError::NotALocalFile) => "unsupported response URI",
            SaveError::Path(PathResolutionError::ClockOutOfRange) => "Failed to name the screenshot after the current time.",
            SaveError::Path(PathResolutionError::PicturesDirectoryUnknown) => "Failed to locate Pictures directory.",
            SaveError::Path(PathResolutionError::DocumentsDirectoryUnknown) => "Failed to locate Documents directory.",
            SaveError::Path(PathResolutionError::NoContainingDirectory) => "Failed to get parent directory of source path.",
            SaveError::Path(PathResolutionError::DirectoryCreationFailed) => "Failed to create destination directory.",
            SaveError::Relocation(RelocationError::NoDestinationDirectory) => "Failed to get parent directory of destination path.",
            SaveError::Relocation(RelocationError::SourceMetadata) => "Failed to get metadata on filesystem for picture source path.",
            SaveError::Relocation(RelocationError::DestinationMetadata) => "Failed to get metadata on filesystem for picture destination.",
            SaveError::Relocation(RelocationError::Rename) => "Failed to move screenshot.",
            SaveError::Relocation(RelocationError::Copy) => "Failed to move screenshot.",
            SaveError::Relocation(RelocationError::RemoveSource) => "Failed to remove temporary screenshot.",
        };
        String::from_str(text)
    }

    /// The report of a run that ends with this failure: its line on standard
    /// error, nothing on standard output, and the fatal exit code. Every
    /// failure is fatal; none is retried or downgraded.
    pub fn report(&self) -> (r: Report)
        ensures
            r.stdout is None,
            r.stderr matches Some(line) && line@ == message_text(*self),
            r.exit_code == FATAL_EXIT_CODE,
            r.exit_code != 0,
    {
        Report { stdout: None, stderr: Some(self.message()), exit_code: FATAL_EXIT_CODE }
    }
}

/// A capture on the clipboard reports the empty path and moves no file.
pub proof fn clipboard_moves_nothing(uri: CaptureUri)
    requires
        uri.scheme@ == "clipboard"@,
    ensures
        source_of(uri) == Ok::<Option<Seq<char>>, CaptureError>(None),
        SavePlan::Clipboard.spec_output_path().len() == 0,
        !SavePlan::Clipboard.moves_a_file(),
{
    reveal_strlit("clipboard");
    reveal_strlit("file");
    assert("clipboard"@.len() != "file"@.len());
}

/// A location whose scheme is neither `file` nor `clipboard` is refused, so
/// that no plan exists that could touch the filesystem.
pub proof fn unsupported_scheme_is_refused(uri: CaptureUri)
    requires
        uri.scheme@ != "file"@,
        uri.scheme@ != "clipboard"@,
    ensures
        source_of(uri) == Err::<Option<Seq<char>>, CaptureError>(CaptureError::UnsupportedScheme),
{
}

} // verus!
