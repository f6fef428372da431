//! Where a captured file is filed, and under which name.

use crate::paths::{has_prefix, joined, parent, path_has_prefix, path_joined, path_parent, text_of};
use crate::settings::InvocationSettings;
use crate::timestamp::{filename_text, Timestamp};
use vstd::prelude::*;
use vstd::string::*;

verus! {

/// Why no destination could be resolved.
#[derive(Clone, Copy, Debug, PartialEq, Eq, Structural)]
pub enum PathResolutionError {
    /// The clock's year cannot be printed in four digits.
    ClockOutOfRange,
    /// The platform names no pictures directory.
    PicturesDirectoryUnknown,
    /// The platform names no documents directory.
    DocumentsDirectoryUnknown,
    /// The source path has no containing directory.
    NoContainingDirectory,
    /// The destination directory could not be created.
    DirectoryCreationFailed,
}

/// The platform's well-known directories.
#[derive(Clone, Debug)]
pub struct KnownDirectories {
    pub pictures: String,
    pub documents: String,
}

/// The directory and file name a capture is saved under.
#[derive(Clone, Debug)]
pub struct ResolvedDestination {
    pub directory: String,
    pub filename: String,
}

/// The view of a result that carries a string.
pub open spec fn text_of_result(r: Result<String, PathResolutionError>) -> Result<
    Seq<char>,
    PathResolutionError,
> {
    match r {
        Ok(s) => Ok(s@),
        Err(e) => Err(e),
    }
}

/// The priority rule for the destination directory: an explicit save
/// directory first; else the screenshots directory for a source under the
/// pictures directory; else the documents directory for a source under it;
/// else the directory that contains the source.
pub open spec fn target_dir_rule(
    save_dir: Option<Seq<char>>,
    under_pictures: bool,
    under_documents: bool,
    screenshots_dir: Seq<char>,
    documents_dir: Seq<char>,
    source_dir: Option<Seq<char>>,
) -> Result<Seq<char>, PathResolutionError> {
    match save_dir {
        Some(dir) => Ok(dir),
        None => if under_pictures {
            Ok(screenshots_dir)
        } else if under_documents {
            Ok(documents_dir)
        } else {
            match source_dir {
                Some(dir) => Ok(dir),
                None => Err(PathResolutionError::NoContainingDirectory),
            }
        },
    }
}

/// The save directory the settings make binding: the one they carry, for a
/// run that is not interactive.
pub open spec fn explicit_save_dir(settings: InvocationSettings) -> Option<Seq<char>> {
    if settings.interactive {
        None
    } else {
        text_of(settings.save_dir)
    }
}

/// The `Screenshots` directory under the pictures directory.
pub open spec fn screenshots_dir_of(pictures: Seq<char>) -> Seq<char> {
    path_joined(pictures, "Screenshots"@)
}

/// The destination directory for a capture stored at `source`.
pub open spec fn target_dir_of(
    settings: InvocationSettings,
    source: Seq<char>,
    pictures: Seq<char>,
    documents: Seq<char>,
) -> Result<Seq<char>, PathResolutionError> {
    target_dir_rule(
        explicit_save_dir(settings),
        path_has_prefix(source, pictures),
        path_has_prefix(source, documents),
        screenshots_dir_of(pictures),
        documents,
        path_parent(source),
    )
}

/// Trusted: calls `dirs::picture_dir`, which consults the environment and the
/// user's configuration. Nothing is claimed about what it finds.
#[verifier::external_body]
pub(crate) fn picture_dir() -> (r: Option<String>) {
    dirs::picture_dir().map(|p| p.to_string_lossy().into_owned())
}

/// Trusted: calls `dirs::document_dir`, which consults the environment and
/// the user's configuration. Nothing is claimed about what it finds.
#[verifier::external_body]
pub(crate) fn document_dir() -> (r: Option<String>) {
    dirs::document_dir().map(|p| p.to_string_lossy().into_owned())
}

/// Applies the priority rule to values already at hand.
pub fn choose_target_dir(
    save_dir: Option<String>,
    under_pictures: bool,
    under_documents: bool,
    screenshots_dir: String,
    documents_dir: String,
    source_dir: Option<String>,
) -> (r: Result<String, PathResolutionError>)
    ensures
        text_of_result(r) == target_dir_rule(
            text_of(save_dir),
            under_pictures,
            under_documents,
            screenshots_dir@,
            documents_dir@,
            text_of(source_dir),
        ),
{
    match save_dir {
        Some(dir) => Ok(dir),
        None => {
            if under_pictures {
                Ok(screenshots_dir)
            } else if under_documents {
                Ok(documents_dir)
            } else {
                match source_dir {
                    Some(dir) => Ok(dir),
                    None => Err(PathResolutionError::NoContainingDirectory),
                }
            }
        },
    }
}

impl KnownDirectories {
    /// The well-known directories from the results of looking them up: the
    /// pictures directory is asked for first, then the documents directory.
    pub fn from_lookup(pictures: Option<String>, documents: Option<String>) -> (r: Result<
        KnownDirectories,
        PathResolutionError,
    >)
        ensures
            match r {
                Ok(dirs) => text_of(pictures) == Some(dirs.pictures@) && text_of(documents)
                    == Some(dirs.documents@),
                Err(e) => if pictures is None {
                    e == PathResolutionError::PicturesDirectoryUnknown
                } else {
                    documents is None && e == PathResolutionError::DocumentsDirectoryUnknown
                },
            },
    {
        match pictures {
            None => Err(PathResolutionError::PicturesDirectoryUnknown),
            Some(pictures) => match documents {
                None => Err(PathResolutionError::DocumentsDirectoryUnknown),
                Some(documents) => Ok(KnownDirectories { pictures, documents }),
            },
        }
    }
}

/// The binding save directory of the settings, if there is one.
pub fn explicit_directory(settings: &InvocationSettings) -> (r: Option<String>)
    ensures
        text_of(r) == explicit_save_dir(*settings),
{
    if settings.interactive {
        None
    } else {
        match &settings.save_dir {
            Some(dir) => Some(dir.clone()),
            None => None,
        }
    }
}

/// Resolves the destination directory for a capture stored at `source`.
pub fn resolve_target_dir(
    settings: &InvocationSettings,
    source: &str,
    pictures: &str,
    documents: &str,
) -> (r: Result<String, PathResolutionError>)
    ensures
        text_of_result(r) == target_dir_of(*settings, source@, pictures@, documents@),
{
    choose_target_dir(
        explicit_directory(settings),
        has_prefix(source, pictures),
        has_prefix(source, documents),
        joined(pictures, "Screenshots"),
        String::from_str(documents),
        parent(source),
    )
}

impl ResolvedDestination {
    /// The full path of the saved file: the file name within the directory.
    pub open spec fn spec_path(self) -> Seq<char> {
        path_joined(self.directory@, self.filename@)
    }

    /// Resolves directory and file name for a capture stored at `source`,
    /// taken at `timestamp`. The file name is always generated anew from the
    /// timestamp; the source's own name plays no part.
    pub fn resolve(
        settings: &InvocationSettings,
        source: &str,
        directories: &KnownDirectories,
        timestamp: &Timestamp,
    ) -> (r: Result<ResolvedDestination, PathResolutionError>)
        requires
            timestamp.well_formed(),
        ensures
            match r {
                Ok(dest) => {
                    &&& target_dir_of(
                        *settings,
                        source@,
                        directories.pictures@,
                        directories.documents@,
                    ) == Ok::<Seq<char>, PathResolutionError>(dest.directory@)
                    &&& dest.filename@ == filename_text(*timestamp)
                },
                Err(e) => target_dir_of(
                    *settings,
                    source@,
                    directories.pictures@,
                    directories.documents@,
                ) == Err::<Seq<char>, PathResolutionError>(e),
            },
    {
        let directory = resolve_target_dir(
            settings,
            source,
            directories.pictures.as_str(),
            directories.documents.as_str(),
        );
        match directory {
            Ok(directory) => Ok(ResolvedDestination { directory, filename: timestamp.filename() }),
            Err(e) => Err(e),
        }
    }

    /// The full path of the saved file.
    pub fn path(&self) -> (p: String)
        ensures
            p@ == self.spec_path(),
    {
        joined(self.directory.as_str(), self.filename.as_str())
    }
}

/// Without a binding save directory, a capture stored under the pictures
/// directory is filed in its `Screenshots` subdirectory, and one stored under
/// the documents directory (and not under the pictures directory) in the
/// documents directory itself.
pub proof fn unset_save_dir_follows_source_prefix(
    settings: InvocationSettings,
    source: Seq<char>,
    pictures: Seq<char>,
    documents: Seq<char>,
)
    requires
        explicit_save_dir(settings) is None,
        path_has_prefix(source, pictures) || path_has_prefix(source, documents),
    ensures
        target_dir_of(settings, source, pictures, documents) == Ok::<
            Seq<char>,
            PathResolutionError,
        >(
            if path_has_prefix(source, pictures) {
                screenshots_dir_of(pictures)
            } else {
                documents
            },
        ),
{
}

/// A binding save directory is the destination directory wherever the
/// capture was stored.
pub proof fn explicit_save_dir_wins(
    settings: InvocationSettings,
    source: Seq<char>,
    pictures: Seq<char>,
    documents: Seq<char>,
)
    requires
        explicit_save_dir(settings) is Some,
    ensures
        target_dir_of(settings, source, pictures, documents) == Ok::<
            Seq<char>,
            PathResolutionError,
        >(explicit_save_dir(settings)->Some_0),
{
}

} // verus!
