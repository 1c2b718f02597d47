use nethai_backend::capture::device::{Device, DeviceFlags};
use nethai_backend::capture::packet::{
    LoopAction, PollEvent, SessionPhase, POLL_TIMEOUT_MS, PROMISCUOUS, SNAPLEN,
};
use nethai_backend::capture::PacketCapture;
use nethai_backend::error::CaptureError;

fn interface(name: &str) -> Device {
    Device {
        name: name.to_string(),
        desc: Some("test interface".to_string()),
        addresses: Vec::new(),
        flags: DeviceFlags { up: true, running: true, wireless: false },
    }
}

fn open_session(name: &str) -> PacketCapture {
    let mut session = PacketCapture::new();
    assert_eq!(session.start_capture(&interface(name), true), Ok(()));
    session
}

#[test]
fn handle_settings() {
    assert!(PROMISCUOUS);
    assert_eq!(SNAPLEN, 65535);
    assert_eq!(POLL_TIMEOUT_MS, 1000);
}

#[test]
fn new_session_is_unopened() {
    let session = PacketCapture::new();
    assert_eq!(session.phase(), SessionPhase::Unopened);
    assert!(!session.is_open());
    assert!(!session.is_running());
    assert_eq!(session.device_name(), None);
}

#[test]
fn opening_binds_the_device_and_runs() {
    let session = open_session("eth0");
    assert_eq!(session.phase(), SessionPhase::Open);
    assert!(session.is_open());
    assert!(session.is_running());
    assert_eq!(session.device_name(), Some("eth0".to_string()));
}

#[test]
fn failed_open_leaves_the_session_unopened() {
    let mut session = PacketCapture::new();
    assert_eq!(session.start_capture(&interface("eth0"), false), Err(CaptureError::CaptureOpen));
    assert_eq!(session.phase(), SessionPhase::Unopened);
    assert!(!session.is_running());
    assert_eq!(session.device_name(), None);
    assert_eq!(session.start_capture(&interface("eth0"), true), Ok(()));
    assert!(session.is_open());
}

#[test]
fn an_open_session_is_not_opened_again() {
    let mut session = open_session("eth0");
    assert_eq!(session.start_capture(&interface("wlan0"), true), Err(CaptureError::CaptureOpen));
    assert_eq!(session.device_name(), Some("eth0".to_string()));
    assert!(session.is_running());
}

#[test]
fn stop_closes_and_releases_once() {
    let mut session = open_session("eth0");
    assert!(session.stop_capture());
    assert_eq!(session.phase(), SessionPhase::Closed);
    assert!(!session.is_running());
    assert_eq!(session.device_name(), None);
    assert!(!session.stop_capture());
    assert_eq!(session.phase(), SessionPhase::Closed);
}

#[test]
fn stop_on_an_unopened_session_changes_nothing() {
    let mut session = PacketCapture::new();
    assert!(!session.stop_capture());
    assert_eq!(session.phase(), SessionPhase::Unopened);
    assert!(!session.is_running());
}

#[test]
fn a_closed_session_stays_closed() {
    let mut session = open_session("eth0");
    session.stop_capture();
    assert_eq!(session.start_capture(&interface("eth0"), true), Err(CaptureError::CaptureOpen));
    assert_eq!(session.phase(), SessionPhase::Closed);
    assert_eq!(session.device_name(), None);
}

#[test]
fn loop_on_a_session_without_handle_is_an_error() {
    let session = PacketCapture::new();
    assert_eq!(session.capture_loop(PollEvent::Entered), Err(CaptureError::NotInitialized));
    let mut closed = open_session("eth0");
    closed.stop_capture();
    assert_eq!(closed.capture_loop(PollEvent::Entered), Err(CaptureError::NotInitialized));
}

#[test]
fn loop_polls_while_running() {
    let session = open_session("eth0");
    assert_eq!(session.capture_loop(PollEvent::Entered), Ok(LoopAction::Poll));
    assert_eq!(session.capture_loop(PollEvent::TimedOut), Ok(LoopAction::Poll));
    assert_eq!(session.capture_loop(PollEvent::Failed), Ok(LoopAction::Poll));
    assert_eq!(session.capture_loop(PollEvent::Delivered(true)), Ok(LoopAction::Poll));
}

#[test]
fn loop_delivers_the_length_of_each_frame() {
    let session = open_session("eth0");
    assert_eq!(session.capture_loop(PollEvent::Frame(0)), Ok(LoopAction::Deliver(0)));
    assert_eq!(session.capture_loop(PollEvent::Frame(1514)), Ok(LoopAction::Deliver(1514)));
    assert_eq!(session.capture_loop(PollEvent::Frame(65535)), Ok(LoopAction::Deliver(65535)));
}

#[test]
fn loop_ends_when_the_consumer_refuses() {
    let session = open_session("eth0");
    assert_eq!(session.capture_loop(PollEvent::Delivered(false)), Ok(LoopAction::Finish));
}

#[test]
fn loop_ends_when_the_handle_is_closed() {
    let session = open_session("eth0");
    assert_eq!(session.capture_loop(PollEvent::HandleClosed), Ok(LoopAction::Finish));
}

#[test]
fn loop_ends_after_stop() {
    let mut session = open_session("eth0");
    session.stop_capture();
    assert_eq!(session.capture_loop(PollEvent::TimedOut), Ok(LoopAction::Finish));
    assert_eq!(session.capture_loop(PollEvent::Failed), Ok(LoopAction::Finish));
    assert_eq!(session.capture_loop(PollEvent::Frame(60)), Ok(LoopAction::Finish));
    assert_eq!(session.capture_loop(PollEvent::Delivered(true)), Ok(LoopAction::Finish));
    assert_eq!(session.capture_loop(PollEvent::HandleClosed), Ok(LoopAction::Finish));
}

#[test]
fn a_driven_loop_feeds_every_frame_until_refused() {
    let session = open_session("eth0");
    let polls = vec![
        PollEvent::TimedOut,
        PollEvent::Frame(100),
        PollEvent::Frame(200),
        PollEvent::Failed,
        PollEvent::Frame(300),
        PollEvent::Frame(400),
    ];
    let mut polls = polls.into_iter();
    let mut delivered: Vec<usize> = Vec::new();
    let mut action = session.capture_loop(PollEvent::Entered).unwrap();
    let mut steps = 0;
    while action != LoopAction::Finish {
        steps += 1;
        assert!(steps < 100);
        let event = match action {
            LoopAction::Poll => polls.next().unwrap_or(PollEvent::HandleClosed),
            LoopAction::Deliver(length) => {
                delivered.push(length);
                PollEvent::Delivered(delivered.len() < 3)
            }
            LoopAction::Finish => unreachable!(),
        };
        action = session.capture_loop(event).unwrap();
    }
    assert_eq!(delivered, vec![100, 200, 300]);
}
