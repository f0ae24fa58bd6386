use mdvew::capture::{BrowserCommand, BrowserEvent, CapturePhase, CaptureSession};
use mdvew::capture::decode_screenshot_payload;
use mdvew::{MdvewError, Theme};

#[test]
fn happy_path_runs_the_full_causal_chain() {
    let mut s = CaptureSession::new("/tmp/mdvew.html", 1024, Theme::Light);
    assert_eq!(s.phase, CapturePhase::Launching);

    let cmd = s.initial_command();
    match cmd {
        BrowserCommand::Launch { width, height } => {
            assert_eq!(width, 1024);
            assert_eq!(height, 800);
        }
        _ => panic!("expected a launch command"),
    }

    let cmd = s.step(BrowserEvent::Launched);
    assert!(matches!(cmd, BrowserCommand::OpenTab));
    assert_eq!(s.phase, CapturePhase::OpeningTab);

    let cmd = s.step(BrowserEvent::TabOpened);
    match cmd {
        BrowserCommand::SetColorScheme { scheme } => assert_eq!(scheme, "light"),
        _ => panic!("expected a color scheme command"),
    }

    let cmd = s.step(BrowserEvent::SchemeSet);
    match cmd {
        BrowserCommand::Navigate { url } => assert_eq!(url, "file:///tmp/mdvew.html"),
        _ => panic!("expected a navigate command"),
    }

    let cmd = s.step(BrowserEvent::Navigated);
    match cmd {
        BrowserCommand::WaitForElement { selector } => assert_eq!(selector, "body"),
        _ => panic!("expected a wait command"),
    }

    let cmd = s.step(BrowserEvent::BodyReady);
    match cmd {
        BrowserCommand::Measure { script } => assert!(script.contains("scrollWidth")),
        _ => panic!("expected a measure command"),
    }

    let cmd = s.step(BrowserEvent::Measured {
        value: Some("[640, 480]".to_string()),
    });
    match cmd {
        BrowserCommand::Screenshot { width, height } => {
            assert_eq!(width, 640);
            assert_eq!(height, 480);
        }
        _ => panic!("expected a screenshot command"),
    }

    let cmd = s.step(BrowserEvent::ScreenshotTaken {
        data: "AQID".to_string(),
    });
    match cmd {
        BrowserCommand::Finish { bytes } => assert_eq!(bytes, vec![1u8, 2, 3]),
        _ => panic!("expected the capture to finish"),
    }
    assert_eq!(s.phase, CapturePhase::Done);
}

#[test]
fn dark_theme_sets_dark_scheme() {
    let mut s = CaptureSession::new("/tmp/mdvew.html", 640, Theme::Dark);
    s.step(BrowserEvent::Launched);
    let cmd = s.step(BrowserEvent::TabOpened);
    match cmd {
        BrowserCommand::SetColorScheme { scheme } => assert_eq!(scheme, "dark"),
        _ => panic!("expected a color scheme command"),
    }
}

#[test]
fn launch_failure_aborts_with_launch_error() {
    let mut s = CaptureSession::new("/tmp/mdvew.html", 640, Theme::Light);
    let cmd = s.step(BrowserEvent::LaunchFailed {
        message: "no executable".to_string(),
    });
    match cmd {
        BrowserCommand::Abort { error } => match error {
            MdvewError::BrowserLaunch { message } => assert_eq!(message, "no executable"),
            _ => panic!("expected the launch error kind"),
        },
        _ => panic!("expected an abort"),
    }
    assert_eq!(s.phase, CapturePhase::Failed);
}

#[test]
fn navigation_failure_aborts_with_browser_error() {
    let mut s = CaptureSession::new("/tmp/mdvew.html", 640, Theme::Light);
    s.step(BrowserEvent::Launched);
    s.step(BrowserEvent::TabOpened);
    s.step(BrowserEvent::SchemeSet);
    let cmd = s.step(BrowserEvent::NavigateFailed {
        message: "refused".to_string(),
    });
    match cmd {
        BrowserCommand::Abort { error } => {
            assert!(matches!(error, MdvewError::Browser { .. }));
        }
        _ => panic!("expected an abort"),
    }
}

#[test]
fn unparseable_measurement_degrades_to_default_extent() {
    let mut s = CaptureSession::new("/tmp/mdvew.html", 640, Theme::Light);
    s.step(BrowserEvent::Launched);
    s.step(BrowserEvent::TabOpened);
    s.step(BrowserEvent::SchemeSet);
    s.step(BrowserEvent::Navigated);
    s.step(BrowserEvent::BodyReady);
    let cmd = s.step(BrowserEvent::Measured {
        value: Some("nonsense".to_string()),
    });
    match cmd {
        BrowserCommand::Screenshot { width, height } => {
            assert_eq!(width, 800);
            assert_eq!(height, 600);
        }
        _ => panic!("expected a screenshot command"),
    }
    assert_eq!(s.phase, CapturePhase::Capturing);
}

#[test]
fn failed_measurement_degrades_to_default_extent() {
    let mut s = CaptureSession::new("/tmp/mdvew.html", 640, Theme::Light);
    s.step(BrowserEvent::Launched);
    s.step(BrowserEvent::TabOpened);
    s.step(BrowserEvent::SchemeSet);
    s.step(BrowserEvent::Navigated);
    s.step(BrowserEvent::BodyReady);
    let cmd = s.step(BrowserEvent::MeasureFailed {
        message: "evaluation rejected".to_string(),
    });
    match cmd {
        BrowserCommand::Screenshot { width, height } => {
            assert_eq!(width, 800);
            assert_eq!(height, 600);
        }
        _ => panic!("expected a screenshot command"),
    }
}

#[test]
fn missing_measurement_value_degrades_to_default_extent() {
    let mut s = CaptureSession::new("/tmp/mdvew.html", 640, Theme::Light);
    s.step(BrowserEvent::Launched);
    s.step(BrowserEvent::TabOpened);
    s.step(BrowserEvent::SchemeSet);
    s.step(BrowserEvent::Navigated);
    s.step(BrowserEvent::BodyReady);
    let cmd = s.step(BrowserEvent::Measured { value: None });
    match cmd {
        BrowserCommand::Screenshot { width, height } => {
            assert_eq!(width, 800);
            assert_eq!(height, 600);
        }
        _ => panic!("expected a screenshot command"),
    }
}

#[test]
fn malformed_screenshot_payload_aborts_with_decode_error() {
    let mut s = CaptureSession::new("/tmp/mdvew.html", 640, Theme::Light);
    s.step(BrowserEvent::Launched);
    s.step(BrowserEvent::TabOpened);
    s.step(BrowserEvent::SchemeSet);
    s.step(BrowserEvent::Navigated);
    s.step(BrowserEvent::BodyReady);
    s.step(BrowserEvent::Measured { value: None });
    let cmd = s.step(BrowserEvent::ScreenshotTaken {
        data: "!!!not base64!!!".to_string(),
    });
    match cmd {
        BrowserCommand::Abort { error } => {
            assert!(matches!(error, MdvewError::Base64Decode { .. }));
        }
        _ => panic!("expected an abort"),
    }
    assert_eq!(s.phase, CapturePhase::Failed);
}

#[test]
fn screenshot_payload_decodes_exactly() {
    let bytes = decode_screenshot_payload("AQID").unwrap();
    assert_eq!(bytes, vec![1u8, 2, 3]);
    let empty = decode_screenshot_payload("").unwrap();
    assert_eq!(empty, Vec::<u8>::new());
    let err = decode_screenshot_payload("!!!").unwrap_err();
    assert!(matches!(err, MdvewError::Base64Decode { .. }));
}

#[test]
fn error_lines_name_the_failed_stage() {
    let e = MdvewError::Browser {
        message: "boom".to_string(),
    };
    assert_eq!(e.error_line(), "Browser error: boom");
    let e = MdvewError::BrowserLaunch {
        message: "no executable".to_string(),
    };
    assert!(e.error_line().starts_with("Failed to launch browser: no executable"));
}

#[test]
fn expects_admits_only_the_pending_outcome() {
    let s = CaptureSession::new("/tmp/mdvew.html", 640, Theme::Light);
    assert!(s.expects(&BrowserEvent::Launched));
    assert!(s.expects(&BrowserEvent::LaunchFailed {
        message: "x".to_string(),
    }));
    assert!(!s.expects(&BrowserEvent::TabOpened));
    assert!(!s.expects(&BrowserEvent::BodyReady));
}
