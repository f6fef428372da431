//! The settings one invocation runs with.

use crate::paths::text_of;
use vstd::prelude::*;

verus! {

/// The validated settings of one invocation.
#[derive(Clone, Debug)]
pub struct InvocationSettings {
    /// Let the user choose what to capture.
    pub interactive: bool,
    /// Show the capture dialog as a modal window.
    pub modal: bool,
    /// Announce the saved file with a desktop notification.
    pub notify: bool,
    /// The directory to save into; only ever set for a non-interactive run.
    pub save_dir: Option<String>,
}

/// The value of a boolean flag: what was given, or `true` where nothing was.
pub open spec fn flag_value(given: Option<bool>) -> bool {
    match given {
        Some(v) => v,
        None => true,
    }
}

/// The save directory that takes effect: the requested one, if the run is
/// not interactive and the request names an existing directory.
pub open spec fn effective_save_dir(
    interactive: bool,
    requested: Option<Seq<char>>,
    requested_is_directory: bool,
) -> Option<Seq<char>> {
    if !interactive && requested_is_directory {
        requested
    } else {
        None
    }
}

impl InvocationSettings {
    /// A save directory is only carried by a non-interactive run.
    pub open spec fn well_formed(self) -> bool {
        self.save_dir is Some ==> !self.interactive
    }

    /// Builds the settings from what the command line supplied.
    ///
    /// Each flag defaults to `true`. `requested_is_directory` says whether
    /// the requested save directory names an existing directory; a request
    /// that does not, or that comes with an interactive run, is ignored.
    pub fn resolve(
        interactive: Option<bool>,
        modal: Option<bool>,
        notify: Option<bool>,
        requested_save_dir: Option<String>,
        requested_is_directory: bool,
    ) -> (s: InvocationSettings)
        ensures
            s.well_formed(),
            s.interactive == flag_value(interactive),
            s.modal == flag_value(modal),
            s.notify == flag_value(notify),
            text_of(s.save_dir) == effective_save_dir(
                flag_value(interactive),
                text_of(requested_save_dir),
                requested_is_directory,
            ),
    {
        let interactive = flag_or_default(interactive);
        let save_dir = if !interactive && requested_is_directory {
            requested_save_dir
        } else {
            None
        };
        InvocationSettings {
            interactive,
            modal: flag_or_default(modal),
            notify: flag_or_default(notify),
            save_dir,
        }
    }

    /// Whether the caller has to find out if the requested save directory
    /// exists: only a non-interactive run with a request consults it.
    pub fn needs_directory_check(interactive: Option<bool>, requested_save_dir: &Option<String>) -> (r:
        bool)
        ensures
            r == (!flag_value(interactive) && requested_save_dir is Some),
    {
        !flag_or_default(interactive) && requested_save_dir.is_some()
    }
}

/// A flag's value, `true` where none was given.
pub fn flag_or_default(given: Option<bool>) -> (v: bool)
    ensures
        v == flag_value(given),
{
    match given {
        Some(v) => v,
        None => true,
    }
}

} // verus!
