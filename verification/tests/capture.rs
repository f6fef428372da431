use cosmic_screenshot::capture::{
    classify_scheme, contains_text, same_text, CaptureResponse, CaptureUri, Report, UriKind,
};
use cosmic_screenshot::settings::{flag_or_default, InvocationSettings};

#[test]
fn finds_text_anywhere() {
    assert!(contains_text("Portal request was Cancelled by user", "Cancelled"));
    assert!(contains_text("Cancelled", "Cancelled"));
    assert!(contains_text("xCancelled", "Cancelled"));
    assert!(contains_text("Cancelledx", "Cancelled"));
    assert!(contains_text("anything", ""));
    assert!(contains_text("", ""));
}

#[test]
fn misses_absent_text() {
    assert!(!contains_text("cancelled", "Cancelled"));
    assert!(!contains_text("Cancelle", "Cancelled"));
    assert!(!contains_text("", "Cancelled"));
    assert!(!contains_text("Cancel led", "Cancelled"));
}

#[test]
fn finds_text_among_wide_characters() {
    assert!(contains_text("é—Cancelled—é", "Cancelled"));
    assert!(contains_text("日本語", "本"));
    assert!(!contains_text("日本語", "本日"));
}

#[test]
fn compares_texts() {
    assert!(same_text("file", "file"));
    assert!(!same_text("file", "files"));
    assert!(!same_text("file", "fils"));
    assert!(same_text("", ""));
}

#[test]
fn classifies_schemes() {
    assert_eq!(classify_scheme("file"), UriKind::File);
    assert_eq!(classify_scheme("clipboard"), UriKind::Clipboard);
    assert_eq!(classify_scheme("http"), UriKind::Unsupported);
    assert_eq!(classify_scheme("File"), UriKind::Unsupported);
    assert_eq!(classify_scheme(""), UriKind::Unsupported);
    assert_eq!(classify_scheme("clipboard2"), UriKind::Unsupported);
}

#[test]
fn portal_error_with_cancelled_is_a_cancellation() {
    let r = CaptureResponse::from_portal_error(String::from("Portal request failed: Cancelled"));
    assert!(matches!(r, CaptureResponse::Cancelled));
}

#[test]
fn other_portal_error_is_a_failure_with_its_message() {
    let r = CaptureResponse::from_portal_error(String::from("no backend"));
    match r {
        CaptureResponse::Failed(message) => assert_eq!(message, "no backend"),
        other => panic!("unexpected response {:?}", other),
    }
}

#[test]
fn cancellation_prints_a_notice_and_exits_cleanly() {
    let report = CaptureResponse::Cancelled.early_exit().unwrap();
    assert_eq!(report.stdout.as_deref(), Some("Screenshot cancelled by user"));
    assert_eq!(report.stderr, None);
    assert_eq!(report.exit_code, 0);
}

#[test]
fn failure_prints_the_error_and_exits_with_one() {
    let report = CaptureResponse::Failed(String::from("no backend")).early_exit().unwrap();
    assert_eq!(report.stdout, None);
    assert_eq!(report.stderr.as_deref(), Some("Error taking screenshot: no backend"));
    assert_eq!(report.exit_code, 1);
}

#[test]
fn success_does_not_end_the_program() {
    let uri = CaptureUri { scheme: String::from("clipboard"), file_path: None };
    assert!(CaptureResponse::Succeeded(uri).early_exit().is_none());
}

#[test]
fn saved_report_prints_the_path() {
    let report = Report::saved("/tmp/out/a.png");
    assert_eq!(report.stdout.as_deref(), Some("/tmp/out/a.png"));
    assert_eq!(report.stderr, None);
    assert_eq!(report.exit_code, 0);
    let clipboard = Report::saved("");
    assert_eq!(clipboard.stdout.as_deref(), Some(""));
}

#[test]
fn flags_default_to_true() {
    assert!(flag_or_default(None));
    assert!(flag_or_default(Some(true)));
    assert!(!flag_or_default(Some(false)));
    let s = InvocationSettings::resolve(None, None, None, None, false);
    assert!(s.interactive && s.modal && s.notify);
    assert_eq!(s.save_dir, None);
}

#[test]
fn explicit_flag_values_are_kept() {
    let s = InvocationSettings::resolve(Some(false), Some(false), Some(false), None, false);
    assert!(!s.interactive && !s.modal && !s.notify);
}

#[test]
fn save_dir_needs_an_existing_directory() {
    let dir = Some(String::from("/tmp/out"));
    let kept = InvocationSettings::resolve(Some(false), None, None, dir.clone(), true);
    assert_eq!(kept.save_dir.as_deref(), Some("/tmp/out"));
    let missing = InvocationSettings::resolve(Some(false), None, None, dir.clone(), false);
    assert_eq!(missing.save_dir, None);
}

#[test]
fn save_dir_is_ignored_when_interactive() {
    let dir = Some(String::from("/tmp/out"));
    let s = InvocationSettings::resolve(Some(true), None, None, dir.clone(), true);
    assert_eq!(s.save_dir, None);
    let d = InvocationSettings::resolve(None, None, None, dir, true);
    assert_eq!(d.save_dir, None);
}

#[test]
fn directory_check_is_only_needed_for_a_binding_request() {
    let dir = Some(String::from("/tmp/out"));
    assert!(InvocationSettings::needs_directory_check(Some(false), &dir));
    assert!(!InvocationSettings::needs_directory_check(Some(true), &dir));
    assert!(!InvocationSettings::needs_directory_check(None, &dir));
    assert!(!InvocationSettings::needs_directory_check(Some(false), &None));
}
