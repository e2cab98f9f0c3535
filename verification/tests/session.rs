use sckitndi::config::PIXEL_FORMAT_32BGRA;
use sckitndi::content::{Display, RunningApplication, ShareableContent};
use sckitndi::error::CaptureError;
use sckitndi::filter::ContentFilter;
use sckitndi::geometry::{Point, Rect, Size};
use sckitndi::session::{
    start, DeliveryStats, Grabber, SessionAction, SessionPhase, SessionState, Stream,
    OUTPUT_HEIGHT, OUTPUT_WIDTH, SENDER_NAME,
};

fn content() -> ShareableContent {
    ShareableContent::new(
        vec![Display::new(1, Size::new(3840, 2160)), Display::new(2, Size::new(800, 600))],
        Vec::new(),
        vec![
            RunningApplication::new(10, Some("com.apple.dock".to_string()), Some("Dock".to_string())),
            RunningApplication::new(11, Some("com.vendor.app".to_string()), None),
            RunningApplication::new(12, None, None),
            RunningApplication::new(13, Some("com.hnc.Discord".to_string()), None),
        ],
    )
}

#[test]
fn new_grabber_is_idle_with_its_sender() {
    let g = Grabber::new(9).unwrap();
    assert_eq!(g.state(), SessionState::Idle);
    assert!(g.stream().is_none());
    assert_eq!(g.sender().send_instance(), 9);
    assert_eq!(g.sender().ndi_name().as_str(), "sckitndi");
    assert_eq!(SENDER_NAME, "sckitndi");
    assert_eq!(g.stats(), DeliveryStats { frames: 0, delivered: 0, dropped: 0 });
}

#[test]
fn failed_sender_construction_gives_no_grabber() {
    assert_eq!(Grabber::new(0).err(), Some(CaptureError::SenderConstructionError));
}

#[test]
fn session_runs_through_to_running() {
    let mut g = Grabber::new(9).unwrap();
    assert_eq!(g.start(), SessionAction::RequestContent);
    assert_eq!(g.state(), SessionState::Configuring);
    let c = content();
    assert_eq!(g.content_received(Some(&c)), SessionAction::RegisterOutput);
    assert_eq!(g.state(), SessionState::Configuring);
    {
        let stream = g.stream().as_ref().unwrap();
        assert!(!stream.has_output);
        match &stream.filter {
            ContentFilter::DisplayExcludingApplications { display, applications, excepting_windows } => {
                assert_eq!(display.display_id, 1);
                let pids: Vec<u32> = applications.iter().map(|a| a.process_id()).collect();
                assert_eq!(pids, vec![10, 13]);
                assert!(excepting_windows.is_empty());
            }
            _ => panic!("wrong kind of filter"),
        }
        assert_eq!((OUTPUT_WIDTH, OUTPUT_HEIGHT), (1920, 1080));
        assert_eq!(stream.config.width(), 1920);
        assert_eq!(stream.config.height(), 1080);
        assert_eq!(stream.config.source_rect(), Rect::new(Point::new(960, 540), Size::new(1920, 1080)));
        assert_eq!(stream.config.destination_rect(), Rect::new(Point::new(0, 0), Size::new(1920, 1080)));
        assert_eq!(stream.config.queue_depth(), 5);
        assert_eq!(stream.config.pixel_format(), PIXEL_FORMAT_32BGRA);
    }
    assert_eq!(g.output_registered(true), SessionAction::StartCapture);
    assert_eq!(g.state(), SessionState::Starting);
    assert!(g.stream().as_ref().unwrap().has_output);
    assert_eq!(g.capture_started(true), SessionAction::Started);
    assert_eq!(g.state(), SessionState::Running);
    assert_eq!(g.start(), SessionAction::Nothing);
    assert_eq!(g.content_received(None), SessionAction::Nothing);
    assert_eq!(g.output_registered(false), SessionAction::Nothing);
    assert_eq!(g.capture_started(false), SessionAction::Nothing);
    assert_eq!(g.state(), SessionState::Running);
}

#[test]
fn refused_registration_fails_the_start_and_never_starts_capture() {
    let mut g = Grabber::new(9).unwrap();
    let mut actions = vec![g.start()];
    let c = content();
    actions.push(g.content_received(Some(&c)));
    actions.push(g.output_registered(false));
    assert_eq!(
        actions,
        vec![
            SessionAction::RequestContent,
            SessionAction::RegisterOutput,
            SessionAction::Report(CaptureError::SessionStartError),
        ]
    );
    assert_eq!(g.state(), SessionState::Failed);
    actions.push(g.output_registered(true));
    actions.push(g.capture_started(true));
    actions.push(g.start());
    assert!(!actions.contains(&SessionAction::StartCapture));
    assert_eq!(actions[3..], [SessionAction::Nothing, SessionAction::Nothing, SessionAction::Nothing]);
    assert_eq!(g.state(), SessionState::Failed);
}

#[test]
fn missing_content_is_reported_once() {
    let mut g = Grabber::new(9).unwrap();
    g.start();
    assert_eq!(g.content_received(None), SessionAction::Report(CaptureError::ContentUnavailable));
    assert_eq!(g.state(), SessionState::Failed);
    assert_eq!(g.content_received(None), SessionAction::Nothing);
    let c = content();
    assert_eq!(g.content_received(Some(&c)), SessionAction::Nothing);
    assert!(g.stream().is_none());
}

#[test]
fn content_without_a_display_cannot_be_filtered() {
    let mut g = Grabber::new(9).unwrap();
    g.start();
    let c = ShareableContent::new(Vec::new(), Vec::new(), Vec::new());
    assert_eq!(
        g.content_received(Some(&c)),
        SessionAction::Report(CaptureError::FilterConstructionError)
    );
    assert_eq!(g.state(), SessionState::Failed);
}

#[test]
fn rejected_start_is_a_session_start_error() {
    let mut g = Grabber::new(9).unwrap();
    g.start();
    let c = content();
    g.content_received(Some(&c));
    g.output_registered(true);
    assert_eq!(g.capture_started(false), SessionAction::Report(CaptureError::SessionStartError));
    assert_eq!(g.state(), SessionState::Failed);
    assert_eq!(g.capture_started(true), SessionAction::Nothing);
}

#[test]
fn answers_before_their_question_are_ignored() {
    let mut g = Grabber::new(9).unwrap();
    let c = content();
    assert_eq!(g.content_received(Some(&c)), SessionAction::Nothing);
    assert_eq!(g.output_registered(true), SessionAction::Nothing);
    assert_eq!(g.capture_started(true), SessionAction::Nothing);
    assert_eq!(g.state(), SessionState::Idle);
    assert_eq!(start(&mut g), SessionAction::RequestContent);
    assert_eq!(g.output_registered(true), SessionAction::Nothing);
    assert_eq!(g.capture_started(true), SessionAction::Nothing);
    assert_eq!(g.content_received(Some(&c)), SessionAction::RegisterOutput);
    assert_eq!(g.content_received(Some(&c)), SessionAction::Nothing);
    assert_eq!(g.capture_started(true), SessionAction::Nothing);
    assert_eq!(g.state(), SessionState::Configuring);
}

#[test]
fn a_stream_takes_one_output() {
    let c = content();
    let mut g = Grabber::new(1).unwrap();
    g.start();
    g.content_received(Some(&c));
    let s = g.stream().as_ref().unwrap();
    let mut stream = Stream::new(s.filter.clone(), s.config);
    assert!(!stream.has_output);
    assert!(!stream.add_stream_output(false));
    assert!(!stream.has_output);
    assert!(stream.add_stream_output(true));
    assert!(stream.has_output);
    assert!(!stream.add_stream_output(true));
    assert!(stream.has_output);
    assert_eq!(stream.start_capture(true), Ok(()));
    assert_eq!(stream.start_capture(false), Err(CaptureError::SessionStartError));
}

#[test]
fn phases_follow_the_answers() {
    let c = content();
    let mut g = Grabber::new(3).unwrap();
    assert_eq!(g.current_phase(), SessionPhase::Idle);
    g.start();
    assert_eq!(g.current_phase(), SessionPhase::AwaitingContent);
    g.content_received(Some(&c));
    assert_eq!(g.current_phase(), SessionPhase::AwaitingRegistration);
    g.output_registered(true);
    assert_eq!(g.current_phase(), SessionPhase::Starting);
    g.capture_started(true);
    assert_eq!(g.current_phase(), SessionPhase::Running);
    let mut failed = Grabber::new(3).unwrap();
    failed.start();
    failed.content_received(None);
    assert_eq!(failed.current_phase(), SessionPhase::Failed);
}

#[test]
fn every_run_reports_a_failure_at_most_once() {
    // All runs of five answers, each answer one of nine.
    let c = content();
    let empty = ShareableContent::new(Vec::new(), Vec::new(), Vec::new());
    for code in 0..9u32.pow(5) {
        let mut g = Grabber::new(1).unwrap();
        let mut reports = 0;
        let mut starts = 0;
        let mut rest = code;
        for _ in 0..5 {
            let action = match rest % 9 {
                0 => g.start(),
                1 => g.content_received(None),
                2 => g.content_received(Some(&empty)),
                3 => g.content_received(Some(&c)),
                4 => g.output_registered(true),
                5 => g.output_registered(false),
                6 => g.capture_started(true),
                7 => g.capture_started(false),
                _ => start(&mut g),
            };
            rest /= 9;
            if reports > 0 {
                assert_eq!(action, SessionAction::Nothing);
            }
            match action {
                SessionAction::Report(_) => reports += 1,
                SessionAction::StartCapture => {
                    starts += 1;
                    assert!(g.stream().as_ref().unwrap().has_output);
                }
                _ => {}
            }
        }
        assert!(reports <= 1 && starts <= 1);
        assert_eq!(reports == 1, g.state() == SessionState::Failed);
    }
}
