//! What the capture portal answered, and what the program reports for it.

use crate::paths::text_of;
use vstd::prelude::*;
use vstd::string::*;

verus! {

/// Why a capture location cannot be used.
#[derive(Clone, Copy, Debug, PartialEq, Eq, Structural)]
pub enum CaptureError {
    /// The location is no URI at all.
    InvalidUri,
    /// The location's scheme is neither `file` nor `clipboard`.
    UnsupportedScheme,
    /// The location has the `file` scheme but denotes no local path.
    NotALocalFile,
}

/// The scheme of the URI written as `text`, as `url::Url::scheme` reports it
/// for the parsed text, or `None` where the text does not parse as a URI.
pub uninterp spec fn uri_scheme(text: Seq<char>) -> Option<Seq<char>>;

/// The local path of the URI written as `text`, as `url::Url::to_file_path`
/// converts the parsed text, or `None` where there is none.
pub uninterp spec fn uri_file_path(text: Seq<char>) -> Option<Seq<char>>;

/// Trusted: parses the text with `url::Url::parse` and calls
/// `url::Url::scheme` on the result. The contract only names the answer,
/// `None` standing for a text that does not parse.
#[verifier::external_body]
pub(crate) fn scheme_of(text: &str) -> (r: Option<String>)
    ensures
        text_of(r) == uri_scheme(text@),
{
    url::Url::parse(text).ok().map(|u| u.scheme().to_string())
}

/// Trusted: parses the text with `url::Url::parse` and calls
/// `url::Url::to_file_path` on the result. The contract only names the
/// answer, `None` standing for a text that does not parse, a URI that the
/// call refuses (a host other than `localhost`, or no room left to build
/// the path), and a path that is not valid UTF-8.
#[verifier::external_body]
pub(crate) fn file_path_of(text: &str) -> (r: Option<String>)
    ensures
        text_of(r) == uri_file_path(text@),
{
    url::Url::parse(text).ok().and_then(|u| u.to_file_path().ok()).and_then(
        |p| p.into_os_string().into_string().ok(),
    )
}

/// The location a successful capture reports, reduced to what is read of it.
#[derive(Clone, Debug)]
pub struct CaptureUri {
    /// The URI's scheme, without the colon.
    pub scheme: String,
    /// The local path the URI denotes, where it denotes one.
    pub file_path: Option<String>,
}

/// The portal's answer to a capture request.
#[derive(Clone, Debug)]
pub enum CaptureResponse {
    /// The user dismissed the capture.
    Cancelled,
    /// The portal failed, with its message.
    Failed(String),
    /// The capture is stored at the given location.
    Succeeded(CaptureUri),
}

/// The kinds of location a capture can report.
#[derive(Clone, Copy, Debug, PartialEq, Eq, Structural)]
pub enum UriKind {
    /// A file on the local filesystem.
    File,
    /// The clipboard: no file was written.
    Clipboard,
    /// Anything else.
    Unsupported,
}

/// What the program prints and how it exits.
#[derive(Clone, Debug)]
pub struct Report {
    /// The line for standard output, if any.
    pub stdout: Option<String>,
    /// The line for standard error, if any.
    pub stderr: Option<String>,
    /// The process exit code.
    pub exit_code: i32,
}

impl CaptureUri {
    /// Reads a capture location from its text: its scheme and, where it
    /// denotes one, its local path. A text that is no URI is refused.
    pub fn parse(text: &str) -> (r: Result<CaptureUri, CaptureError>)
        ensures
            match r {
                Ok(uri) => uri_scheme(text@) == Some(uri.scheme@) && text_of(uri.file_path)
                    == uri_file_path(text@),
                Err(e) => e == CaptureError::InvalidUri && uri_scheme(text@) is None,
            },
    {
        match scheme_of(text) {
            Some(scheme) => Ok(CaptureUri { scheme, file_path: file_path_of(text) }),
            None => Err(CaptureError::InvalidUri),
        }
    }
}

/// Whether `needle` occurs in `haystack` as a contiguous run.
pub open spec fn occurs_in(needle: Seq<char>, haystack: Seq<char>) -> bool {
    exists|i: int| occurs_at(needle, haystack, i)
}

/// Whether `needle` occurs in `haystack` starting at position `i`.
pub open spec fn occurs_at(needle: Seq<char>, haystack: Seq<char>, i: int) -> bool {
    0 <= i && i + needle.len() <= haystack.len() && haystack.subrange(i, i + needle.len())
        == needle
}

/// The kind of a scheme: `file`, `clipboard`, or unsupported.
pub open spec fn kind_of_scheme(scheme: Seq<char>) -> UriKind {
    if scheme == "file"@ {
        UriKind::File
    } else if scheme == "clipboard"@ {
        UriKind::Clipboard
    } else {
        UriKind::Unsupported
    }
}

/// Whether a portal error message reports that the user cancelled.
pub open spec fn reports_cancellation(message: Seq<char>) -> bool {
    occurs_in("Cancelled"@, message)
}

fn matches_at(haystack: &str, needle: &str, start: usize, needle_len: usize) -> (r: bool)
    requires
        needle_len == needle@.len(),
        start + needle_len <= haystack@.len() <= usize::MAX,
    ensures
        r == occurs_at(needle@, haystack@, start as int),
{
    let mut k: usize = 0;
    while k < needle_len
        invariant
            needle_len == needle@.len(),
            start + needle_len <= haystack@.len() <= usize::MAX,
            k <= needle_len,
            forall|j: int| 0 <= j < k ==> haystack@[start + j] == needle@[j],
        decreases needle_len - k,
    {
        if haystack.get_char(start + k) != needle.get_char(k) {
            proof {
                let window = haystack@.subrange(start as int, start + needle_len);
                assert(window[k as int] == haystack@[start + k]);
            }
            return false;
        }
        k += 1;
    }
    assert(haystack@.subrange(start as int, start + needle_len) =~= needle@);
    true
}

/// Whether `needle` occurs somewhere in `haystack`.
pub fn contains_text(haystack: &str, needle: &str) -> (r: bool)
    ensures
        r == occurs_in(needle@, haystack@),
{
    let hay_len = haystack.unicode_len();
    let needle_len = needle.unicode_len();
    if needle_len > hay_len {
        return false;
    }
    let last: usize = hay_len - needle_len;
    let mut i: usize = 0;
    loop
        invariant
            hay_len == haystack@.len(),
            needle_len == needle@.len(),
            last == hay_len - needle_len,
            i <= last,
            forall|j: int| 0 <= j < i ==> !occurs_at(needle@, haystack@, j),
        decreases last - i,
    {
        if matches_at(haystack, needle, i, needle_len) {
            return true;
        }
        if i == last {
            return false;
        }
        i += 1;
    }
}

/// Classifies a scheme.
pub fn classify_scheme(scheme: &str) -> (k: UriKind)
    ensures
        k == kind_of_scheme(scheme@),
{
    if same_text(scheme, "file") {
        UriKind::File
    } else if same_text(scheme, "clipboard") {
        UriKind::Clipboard
    } else {
        UriKind::Unsupported
    }
}

/// Whether two texts are equal.
pub fn same_text(a: &str, b: &str) -> (r: bool)
    ensures
        r == (a@ == b@),
{
    let n = a.unicode_len();
    if n != b.unicode_len() {
        return false;
    }
    let r = matches_at(a, b, 0, n);
    proof {
        assert(a@.subrange(0, n as int) =~= a@);
    }
    r
}

impl CaptureResponse {
    /// The response for a portal error: a cancellation where the message
    /// contains `Cancelled`, a failure carrying the message otherwise.
    pub fn from_portal_error(message: String) -> (r: CaptureResponse)
        ensures
            reports_cancellation(message@) ==> r is Cancelled,
            !reports_cancellation(message@) ==> (r matches CaptureResponse::Failed(m) && m@
                == message@),
    {
        if contains_text(message.as_str(), "Cancelled") {
            CaptureResponse::Cancelled
        } else {
            CaptureResponse::Failed(message)
        }
    }

    /// The report that ends the program early, for a response that is no
    /// success: a cancellation prints a notice and exits with 0; a failure
    /// prints the error to standard error and exits with 1. A success gives
    /// `None`: the program goes on.
    pub fn early_exit(&self) -> (r: Option<Report>)
        ensures
            match *self {
                CaptureResponse::Cancelled => r matches Some(report) && {
                    &&& report.stdout matches Some(line) && line@
                        == "Screenshot cancelled by user"@
                    &&& report.stderr is None
                    &&& report.exit_code == 0
                },
                CaptureResponse::Failed(message) => r matches Some(report) && {
                    &&& report.stdout is None
                    &&& report.stderr matches Some(line) && line@
                        == "Error taking screenshot: "@ + message@
                    &&& report.exit_code == 1
                },
                CaptureResponse::Succeeded(_) => r is None,
            },
    {
        match self {
            CaptureResponse::Cancelled => Some(
                Report {
                    stdout: Some(String::from_str("Screenshot cancelled by user")),
                    stderr: None,
                    exit_code: 0,
                },
            ),
            CaptureResponse::Failed(message) => {
                let line = String::from_str("Error taking screenshot: ").concat(message.as_str());
                Some(Report { stdout: None, stderr: Some(line), exit_code: 1 })
            },
            CaptureResponse::Succeeded(_) => None,
        }
    }
}

impl Report {
    /// The report of a completed run: the saved path on standard output
    /// (empty where the capture went to the clipboard) and exit code 0.
    pub fn saved(path: &str) -> (r: Report)
        ensures
            r.stdout matches Some(line) && line@ == path@,
            r.stderr is None,
            r.exit_code == 0,
    {
        Report { stdout: Some(String::from_str(path)), stderr: None, exit_code: 0 }
    }
}

} // verus!
