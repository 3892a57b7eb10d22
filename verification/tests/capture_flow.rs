//! Checks of the capture decision core over recorded traces.

use base64::Engine;
use lumina::capture::{
    capture_region_png_base64, poll_event_is_valid, CaptureError, CaptureTrace, FileOutcome,
    PollEvent, SnipTrace, ToolTrace,
};

#[test]
fn unsupported_platform_returns_not_supported() {
    match capture_region_png_base64(&CaptureTrace::Unsupported) {
        Err(CaptureError::NotSupported) => {},
        other => panic!("expected NotSupported, got {:?}", other),
    }
}

#[test]
fn tool_launch_failure_is_tool_not_found() {
    let trace = CaptureTrace::Tool(ToolTrace::LaunchFailed);
    assert!(matches!(capture_region_png_base64(&trace), Err(CaptureError::ToolNotFound)));
}

#[test]
fn tool_failure_prefers_stderr() {
    let trace = CaptureTrace::Tool(ToolTrace::Failed {
        stdout: String::from("out"),
        stderr: String::from("err"),
    });
    match capture_region_png_base64(&trace) {
        Err(CaptureError::ToolFailed(m)) => assert_eq!(m, "err"),
        other => panic!("expected ToolFailed, got {:?}", other),
    }
}

#[test]
fn tool_failure_falls_back_to_stdout() {
    let trace = CaptureTrace::Tool(ToolTrace::Failed {
        stdout: String::from("the real story"),
        stderr: String::from("  \n "),
    });
    match capture_region_png_base64(&trace) {
        Err(CaptureError::ToolFailed(m)) => assert_eq!(m, "the real story"),
        other => panic!("expected ToolFailed, got {:?}", other),
    }
}

#[test]
fn tool_failure_with_unicode_blank_stderr_falls_back_to_stdout() {
    let trace = CaptureTrace::Tool(ToolTrace::Failed {
        stdout: String::from("the real story"),
        stderr: String::from("\u{b}\u{a0}\u{2028}"),
    });
    match capture_region_png_base64(&trace) {
        Err(CaptureError::ToolFailed(m)) => assert_eq!(m, "the real story"),
        other => panic!("expected ToolFailed, got {:?}", other),
    }
}

#[test]
fn saved_file_bytes_are_base64_encoded() {
    let trace = CaptureTrace::Tool(ToolTrace::Saved { file: FileOutcome::Read(vec![1, 2, 3]) });
    assert_eq!(capture_region_png_base64(&trace).unwrap(), "AQID");
}

#[test]
fn unreadable_file_is_read_failed() {
    let trace = CaptureTrace::Tool(ToolTrace::Saved {
        file: FileOutcome::Error(String::from("permission denied")),
    });
    match capture_region_png_base64(&trace) {
        Err(CaptureError::ReadFailed(m)) => assert_eq!(m, "permission denied"),
        other => panic!("expected ReadFailed, got {:?}", other),
    }
}

#[test]
fn snip_ui_that_cannot_open_fails() {
    let trace = CaptureTrace::Snip(SnipTrace::OpenFailed);
    assert!(matches!(capture_region_png_base64(&trace), Err(CaptureError::SnipOpenFailed)));
}

#[test]
fn polls_without_valid_image_time_out() {
    let polls = vec![
        PollEvent::NoImage,
        PollEvent::AccessError(String::from("busy")),
        // a 1x1 placeholder entry never counts as a capture
        PollEvent::Image { width: 1, height: 1, rgba: vec![0, 0, 0, 0] },
        // nor does a buffer that does not match its claimed dimensions
        PollEvent::Image { width: 2, height: 2, rgba: vec![0, 0, 0] },
        PollEvent::NoImage,
    ];
    let trace = CaptureTrace::Snip(SnipTrace::Polled { polls });
    assert!(matches!(capture_region_png_base64(&trace), Err(CaptureError::ClipboardTimeout)));
}

#[test]
fn empty_poll_run_times_out() {
    let trace = CaptureTrace::Snip(SnipTrace::Polled { polls: vec![] });
    assert!(matches!(capture_region_png_base64(&trace), Err(CaptureError::ClipboardTimeout)));
}

#[test]
fn first_valid_image_is_png_and_base64_encoded() {
    let rgba: Vec<u8> = vec![255; 2 * 2 * 4];
    let polls = vec![
        PollEvent::NoImage,
        PollEvent::Image { width: 2, height: 2, rgba },
    ];
    let trace = CaptureTrace::Snip(SnipTrace::Polled { polls });
    let encoded = capture_region_png_base64(&trace).unwrap();
    let png = base64::engine::general_purpose::STANDARD.decode(encoded).unwrap();
    assert_eq!(&png[0..4], &[0x89, b'P', b'N', b'G']);
}

#[test]
fn poll_validity_rules() {
    assert!(!poll_event_is_valid(&PollEvent::NoImage));
    assert!(!poll_event_is_valid(&PollEvent::AccessError(String::from("x"))));
    assert!(!poll_event_is_valid(&PollEvent::Image { width: 1, height: 5, rgba: vec![0; 20] }));
    assert!(!poll_event_is_valid(&PollEvent::Image { width: 3, height: 3, rgba: vec![0; 7] }));
    assert!(poll_event_is_valid(&PollEvent::Image { width: 2, height: 3, rgba: vec![0; 24] }));
}

#[test]
fn capture_error_messages() {
    assert_eq!(CaptureError::NotSupported.message(), "This OS is not supported yet");
    assert_eq!(
        CaptureError::ToolFailed(String::from("boom")).message(),
        "Spectacle failed: boom"
    );
    assert_eq!(
        CaptureError::ClipboardError(String::from("denied")).message(),
        "Windows: clipboard error: denied"
    );
    assert_eq!(
        CaptureError::ClipboardTimeout.message(),
        "Windows: no image found in clipboard (timeout)"
    );
}
