use simple_auto_camera_raspberrypi::controller::{
    Action, CameraError, CaptureController, DebounceWindow, Event, Mode, Phase,
    MOTION_COOLDOWN_MS, POLL_INTERVAL_MS,
};
use simple_auto_camera_raspberrypi::notify::{DeliveryFailure, NotificationResult};
use simple_auto_camera_raspberrypi::store::{FrameStore, StoreError, StoredImage};
use simple_auto_camera_raspberrypi::timestamp::Timestamp;

fn stamp(second: u32) -> Timestamp {
    Timestamp { year: 2024, month: 5, day: 17, hour: 9, minute: 3, second }
}

fn image(second: u32) -> StoredImage {
    FrameStore::new("static".to_string()).target(stamp(second)).unwrap()
}

fn fault() -> CameraError {
    CameraError { message: "exposure failed".to_string() }
}

/// Drives one accepted cycle to its end and records the stored file.
fn finish_cycle(c: &mut CaptureController, files: &mut Vec<StoredImage>, second: u32) {
    let a = c.on_captured(Ok(vec![0xff, 0xd8, 0xff]));
    assert_eq!(a, Action::Persist(vec![0xff, 0xd8, 0xff]));
    let img = image(second);
    files.push(img.clone());
    assert_eq!(c.on_persisted(Ok(img.clone())), Action::Notify(img));
    assert_eq!(c.on_notified(NotificationResult::Delivered), Action::Sleep);
    assert_eq!(c.phase, Phase::Idle);
}

#[test]
fn inactive_sensor_never_captures() {
    let mut c = CaptureController::motion(30_000);
    let mut captures = 0;
    for i in 0..10u64 {
        let a = c.on_poll(i * POLL_INTERVAL_MS, false);
        if a == Action::Capture {
            captures += 1;
        }
        assert_eq!(a, Action::Sleep);
    }
    assert_eq!(captures, 0);
    assert_eq!(c.window.last_accept_ms, None);
    assert_eq!(c.phase, Phase::Idle);
}

#[test]
fn second_activation_within_cooldown_is_suppressed() {
    let mut c = CaptureController::motion(30_000);
    let mut files = Vec::new();
    assert_eq!(c.on_poll(5_000, true), Action::Capture);
    finish_cycle(&mut c, &mut files, 5);
    assert_eq!(c.on_poll(6_000, true), Action::Sleep);
    assert_eq!(files.len(), 1);
    assert_eq!(c.window.last_accept_ms, Some(5_000));
}

#[test]
fn camera_fault_skips_cycle_and_loop_continues() {
    let mut c = CaptureController::motion(30_000);
    let files: Vec<StoredImage> = Vec::new();
    assert_eq!(c.on_poll(0, true), Action::Capture);
    assert_eq!(c.on_captured(Err(fault())), Action::Sleep);
    assert_eq!(c.phase, Phase::Idle);
    assert_eq!(files.len(), 0);
    // the failed attempt still used up the window
    assert_eq!(c.on_poll(500, true), Action::Sleep);
    assert_eq!(c.on_poll(30_000, true), Action::Capture);
}

#[test]
fn notifier_timeout_keeps_file_and_loop() {
    let mut c = CaptureController::motion(30_000);
    assert_eq!(c.on_poll(0, true), Action::Capture);
    assert_eq!(c.on_captured(Ok(vec![1, 2, 3])), Action::Persist(vec![1, 2, 3]));
    let img = image(0);
    assert_eq!(c.on_persisted(Ok(img.clone())), Action::Notify(img.clone()));
    let r = NotificationResult::Failed(DeliveryFailure::Transport);
    assert_eq!(c.on_notified(r), Action::Sleep);
    assert_eq!(c.phase, Phase::Idle);
    assert_eq!(img.path, "static/raspi-camera-20240517090300.jpg");
    assert_eq!(c.on_poll(500, false), Action::Sleep);
}

#[test]
fn failed_save_sends_no_notification() {
    let mut c = CaptureController::motion(30_000);
    assert_eq!(c.on_poll(0, true), Action::Capture);
    assert_eq!(c.on_captured(Ok(vec![9])), Action::Persist(vec![9]));
    assert_eq!(c.on_persisted(Err(StoreError::Io)), Action::Sleep);
    assert_eq!(c.phase, Phase::Idle);
}

#[test]
fn capture_accepted_exactly_when_cooldown_elapses() {
    let mut c = CaptureController::motion(30_000);
    let mut files = Vec::new();
    assert_eq!(c.on_poll(1_000, true), Action::Capture);
    finish_cycle(&mut c, &mut files, 1);
    assert_eq!(c.on_poll(30_999, true), Action::Sleep);
    assert_eq!(c.on_poll(31_000, true), Action::Capture);
    finish_cycle(&mut c, &mut files, 31);
    assert_eq!(files.len(), 2);
    assert_ne!(files[0].path, files[1].path);
}

#[test]
fn activations_closer_than_cooldown_give_one_capture() {
    let mut c = CaptureController::motion(10_000);
    let mut files = Vec::new();
    let mut captures = 0;
    for t in [100u64, 2_000, 4_500, 9_000, 10_099] {
        if c.on_poll(t, true) == Action::Capture {
            captures += 1;
            finish_cycle(&mut c, &mut files, 1);
        }
    }
    assert_eq!(captures, 1);
}

#[test]
fn first_activation_after_start_is_accepted() {
    let mut c = CaptureController::motion(MOTION_COOLDOWN_MS);
    assert_eq!(MOTION_COOLDOWN_MS, 30_000);
    assert_eq!(c.on_poll(0, true), Action::Capture);
    assert_eq!(c.window.last_accept_ms, Some(0));
}

#[test]
fn one_shot_runs_once_and_exits() {
    let mut c = CaptureController::one_shot();
    assert_eq!(c.mode, Mode::OneShot);
    assert_eq!(c.on_poll(0, false), Action::Capture);
    assert_eq!(c.on_captured(Ok(vec![7])), Action::Persist(vec![7]));
    let img = image(2);
    assert_eq!(c.on_persisted(Ok(img.clone())), Action::Notify(img));
    assert_eq!(c.on_notified(NotificationResult::Skipped), Action::Exit(true));
    assert_eq!(c.phase, Phase::Finished);
}

#[test]
fn one_shot_camera_fault_is_fatal() {
    let mut c = CaptureController::one_shot();
    assert_eq!(c.on_poll(0, false), Action::Capture);
    assert_eq!(c.on_captured(Err(fault())), Action::Exit(false));
    assert_eq!(c.phase, Phase::Finished);
}

#[test]
fn one_shot_save_fault_is_fatal() {
    let mut c = CaptureController::one_shot();
    c.on_poll(0, false);
    c.on_captured(Ok(vec![7]));
    assert_eq!(c.on_persisted(Err(StoreError::Io)), Action::Exit(false));
}

#[test]
fn handle_dispatches_events() {
    let mut c = CaptureController::motion(1_000);
    assert_eq!(c.handle(Event::Poll { now: 0, active: true }), Action::Capture);
    assert_eq!(c.handle(Event::Captured(Ok(vec![5]))), Action::Persist(vec![5]));
    let img = image(3);
    assert_eq!(c.handle(Event::Persisted(Ok(img.clone()))), Action::Notify(img));
    assert_eq!(
        c.handle(Event::Notified(NotificationResult::Failed(DeliveryFailure::Status(500)))),
        Action::Sleep
    );
    assert_eq!(c.handle(Event::Poll { now: 999, active: true }), Action::Sleep);
    assert_eq!(c.handle(Event::Poll { now: 1_000, active: true }), Action::Capture);
}

#[test]
fn window_try_accept() {
    let mut w = DebounceWindow::new(30_000);
    assert!(w.is_open(0));
    assert!(w.try_accept(10));
    assert!(!w.is_open(5));
    assert!(!w.try_accept(30_009));
    assert!(w.try_accept(30_010));
    assert_eq!(w.last_accept_ms, Some(30_010));
}

#[test]
fn camera_selection() {
    assert_eq!(CaptureController::camera_to_use(0), None);
    assert_eq!(CaptureController::camera_to_use(1), Some(0));
    assert_eq!(CaptureController::camera_to_use(3), Some(0));
}
