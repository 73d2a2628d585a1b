use uid_scanner::lifecycle::BusEvent::{Addressed, Configured, Enabled, Reset, Suspended};
use uid_scanner::lifecycle::{BusEvent, BusState, DeviceHandler};
use uid_scanner::report::HidReport;
use uid_scanner::tag::TagIdentifier;
use uid_scanner::tag_loop::ReaderReply::{Answered, Collision, Failed};
use uid_scanner::tag_loop::{ReaderReply, TagAction, TagEvent, TagLoop, TagPhase, POLL_INTERVAL_MS};
use uid_scanner::transport::{TransportAction, TransportEvent, TransportState, TransportTask};
use uid_scanner::wakeup::WakeupSignal;

fn replay(events: &[BusEvent]) -> BusState {
    let mut handler = DeviceHandler::new();
    for e in events {
        handler.handle(*e);
    }
    handler.state()
}

fn loop_awaiting_removal() -> TagLoop {
    let (mut tag_loop, _) = TagLoop::start();
    tag_loop.step(TagEvent::Presence(ReaderReply::Answered));
    let id = TagIdentifier::new(&[1, 2, 3, 4]).expect("accepted");
    tag_loop.step(TagEvent::Selected { id, suspended: false, hotkey: false });
    tag_loop.step(TagEvent::Emitted);
    assert_eq!(tag_loop.phase(), TagPhase::AwaitingRemoval);
    tag_loop
}

fn wait_iterations(script: &[ReaderReply]) -> Option<usize> {
    let mut tag_loop = loop_awaiting_removal();
    for (i, answer) in script.iter().enumerate() {
        let action = tag_loop.step(TagEvent::Wake(*answer));
        if tag_loop.phase() != TagPhase::AwaitingRemoval {
            assert_eq!(action, Some(TagAction::RequestPresence));
            return Some(i + 1);
        }
        assert_eq!(action, Some(TagAction::RequestWake));
    }
    None
}

#[test]
fn handler_starts_unconfigured_and_awake() {
    let handler = DeviceHandler::new();
    assert!(!handler.is_configured());
    assert!(!handler.is_suspended());
    assert_eq!(handler.state(), BusState { configured: false, suspended: false });
}

#[test]
fn each_bus_event_has_its_effect() {
    let mut handler = DeviceHandler::new();
    handler.configured(true);
    assert_eq!(handler.state(), BusState { configured: true, suspended: false });
    handler.suspended(true);
    assert_eq!(handler.state(), BusState { configured: true, suspended: true });
    handler.reset();
    assert_eq!(handler.state(), BusState { configured: false, suspended: true });
    handler.configured(true);
    handler.addressed(5);
    assert_eq!(handler.state(), BusState { configured: false, suspended: true });
    handler.configured(true);
    handler.suspended(false);
    assert_eq!(handler.state(), BusState { configured: true, suspended: false });
    handler.suspended(true);
    handler.enabled(true);
    assert_eq!(handler.state(), BusState { configured: false, suspended: false });
    handler.configured(true);
    handler.suspended(true);
    handler.enabled(false);
    assert_eq!(handler.state(), BusState { configured: false, suspended: false });
    handler.configured(true);
    handler.configured(false);
    assert!(!handler.is_configured());
}

#[test]
fn suspend_flag_follows_the_last_event_that_writes_it() {
    assert!(replay(&[Suspended(true)]).suspended);
    assert!(replay(&[Suspended(false), Suspended(true), Reset, Addressed(3), Configured(true)]).suspended);
    assert!(!replay(&[Suspended(true), Suspended(false)]).suspended);
    assert!(!replay(&[Suspended(true), Enabled(true)]).suspended);
    assert!(!replay(&[Suspended(true), Configured(true), Enabled(false), Reset]).suspended);
    assert!(replay(&[Enabled(true), Suspended(true)]).suspended);
    assert!(!replay(&[Reset, Addressed(1), Configured(true), Configured(false)]).suspended);
}

#[test]
fn wakeup_request_is_dropped_while_the_bus_is_live() {
    let mut signal = WakeupSignal::new();
    assert!(!signal.is_pending());
    signal.request(false);
    assert!(!signal.is_pending());
    assert!(!signal.take());
}

#[test]
fn wakeup_requests_coalesce_into_one() {
    let mut signal = WakeupSignal::new();
    signal.request(true);
    signal.request(true);
    signal.signal();
    signal.request(false);
    assert!(signal.is_pending());
    let taken: Vec<bool> = (0..4).map(|_| signal.take()).collect();
    assert_eq!(taken, vec![true, false, false, false]);
    assert!(!signal.is_pending());
}

#[test]
fn transport_goes_through_a_remote_wakeup() {
    let mut task = TransportTask::new();
    assert_eq!(task.state(), TransportState::Running);
    assert_eq!(task.action(), TransportAction::RunUntilSuspend);
    assert_eq!(task.step(TransportEvent::BusSuspended), TransportAction::AwaitResumeOrWakeup);
    assert_eq!(task.state(), TransportState::Suspended);
    assert_eq!(task.step(TransportEvent::WakeupRequested), TransportAction::SendRemoteWakeup);
    assert_eq!(task.state(), TransportState::WakingUp);
    assert_eq!(task.step(TransportEvent::WakeupSent), TransportAction::RunUntilSuspend);
    assert_eq!(task.state(), TransportState::Running);
    assert!(!task.is_halted());
}

#[test]
fn transport_follows_a_host_resume() {
    let mut task = TransportTask::new();
    task.step(TransportEvent::BusSuspended);
    assert_eq!(task.step(TransportEvent::HostResumed), TransportAction::RunUntilSuspend);
    assert_eq!(task.state(), TransportState::Running);
}

#[test]
fn transport_halts_when_the_wakeup_cannot_be_sent() {
    let mut task = TransportTask::new();
    task.step(TransportEvent::BusSuspended);
    task.step(TransportEvent::WakeupRequested);
    assert_eq!(task.step(TransportEvent::WakeupFailed), TransportAction::Halt);
    assert!(task.is_halted());
    for e in [
        TransportEvent::BusSuspended,
        TransportEvent::HostResumed,
        TransportEvent::WakeupRequested,
        TransportEvent::WakeupSent,
        TransportEvent::WakeupFailed,
    ] {
        assert_eq!(task.step(e), TransportAction::Halt);
        assert_eq!(task.state(), TransportState::Halted);
    }
}

#[test]
fn transport_ignores_what_it_does_not_wait_for() {
    let mut task = TransportTask::new();
    for e in [
        TransportEvent::HostResumed,
        TransportEvent::WakeupRequested,
        TransportEvent::WakeupSent,
        TransportEvent::WakeupFailed,
    ] {
        assert_eq!(task.step(e), TransportAction::RunUntilSuspend);
        assert_eq!(task.state(), TransportState::Running);
    }
    task.step(TransportEvent::BusSuspended);
    for e in [TransportEvent::BusSuspended, TransportEvent::WakeupSent, TransportEvent::WakeupFailed] {
        assert_eq!(task.step(e), TransportAction::AwaitResumeOrWakeup);
        assert_eq!(task.state(), TransportState::Suspended);
    }
}

#[test]
fn slot_and_transport_make_one_wakeup_cycle() {
    let mut signal = WakeupSignal::new();
    let mut task = TransportTask::new();
    task.step(TransportEvent::BusSuspended);
    for _ in 0..5 {
        signal.request(true);
    }
    let mut cycles = 0;
    for _ in 0..3 {
        if signal.take() && task.step(TransportEvent::WakeupRequested) == TransportAction::SendRemoteWakeup {
            cycles += 1;
            task.step(TransportEvent::WakeupSent);
            task.step(TransportEvent::BusSuspended);
        }
    }
    assert_eq!(cycles, 1);
}

#[test]
fn poll_interval() {
    assert_eq!(POLL_INTERVAL_MS, 150);
}

#[test]
fn detection_retries_until_a_tag_is_selected() {
    let (mut tag_loop, first) = TagLoop::start();
    assert_eq!(first, TagAction::RequestPresence);
    assert_eq!(tag_loop.phase(), TagPhase::Detecting);
    assert!(!tag_loop.indicator());
    for reply in [ReaderReply::Failed, ReaderReply::Collision, ReaderReply::Failed] {
        assert_eq!(tag_loop.step(TagEvent::Presence(reply)), Some(TagAction::RequestPresence));
        assert_eq!(tag_loop.phase(), TagPhase::Detecting);
    }
    assert_eq!(tag_loop.step(TagEvent::Presence(ReaderReply::Answered)), Some(TagAction::Select));
    assert_eq!(tag_loop.phase(), TagPhase::Selecting);
    assert_eq!(tag_loop.step(TagEvent::SelectFailed), Some(TagAction::RequestPresence));
    assert_eq!(tag_loop.phase(), TagPhase::Detecting);
    assert!(!tag_loop.indicator());
}

#[test]
fn a_selected_tag_is_announced_and_emitted() {
    let (mut tag_loop, _) = TagLoop::start();
    tag_loop.step(TagEvent::Presence(ReaderReply::Answered));
    let id = TagIdentifier::new(&[0x04, 0xA1, 0xB2, 0xC3]).expect("accepted");
    let action = tag_loop.step(TagEvent::Selected { id, suspended: true, hotkey: false });
    let mut expected = Vec::new();
    for k in [39u8, 33, 4, 30, 5, 31, 6, 32] {
        expected.push(HidReport { modifier: 0, reserved: 0, keycodes: [k, 0, 0, 0, 0, 0] });
        expected.push(HidReport { modifier: 0, reserved: 0, keycodes: [0; 6] });
    }
    assert_eq!(action, Some(TagAction::Emit { wakeup: true, reports: expected }));
    assert_eq!(tag_loop.phase(), TagPhase::Emitting);
    assert!(tag_loop.indicator());
    assert_eq!(tag_loop.step(TagEvent::Emitted), Some(TagAction::RequestWake));
    assert_eq!(tag_loop.phase(), TagPhase::AwaitingRemoval);
    assert!(tag_loop.indicator());
}

#[test]
fn no_wakeup_is_asked_for_on_a_live_bus() {
    let (mut tag_loop, _) = TagLoop::start();
    tag_loop.step(TagEvent::Presence(ReaderReply::Answered));
    let id = TagIdentifier::new(&[1, 2, 3, 4, 5, 6, 7]).expect("accepted");
    match tag_loop.step(TagEvent::Selected { id, suspended: false, hotkey: true }) {
        Some(TagAction::Emit { wakeup, reports }) => {
            assert!(!wakeup);
            assert_eq!(reports.len(), 4 * 7 + 4);
            assert_eq!(reports[0].keycodes[0], 24);
            assert_eq!(reports[0].modifier, 7);
            assert_eq!(reports[30].keycodes[0], 7);
            assert_eq!(reports[30].modifier, 7);
        }
        other => panic!("unexpected action {:?}", other),
    }
}

#[test]
fn events_out_of_phase_are_refused() {
    let (mut tag_loop, _) = TagLoop::start();
    assert_eq!(tag_loop.step(TagEvent::Emitted), None);
    assert_eq!(tag_loop.step(TagEvent::SelectFailed), None);
    assert_eq!(tag_loop.step(TagEvent::Wake(ReaderReply::Failed)), None);
    assert_eq!(tag_loop.phase(), TagPhase::Detecting);
    tag_loop.step(TagEvent::Presence(ReaderReply::Answered));
    assert_eq!(tag_loop.step(TagEvent::Presence(ReaderReply::Answered)), None);
    assert_eq!(tag_loop.step(TagEvent::Wake(ReaderReply::Answered)), None);
    assert_eq!(tag_loop.phase(), TagPhase::Selecting);
    let mut waiting = loop_awaiting_removal();
    let id = TagIdentifier::new(&[1, 2, 3, 4]).expect("accepted");
    assert_eq!(waiting.step(TagEvent::Selected { id, suspended: true, hotkey: true }), None);
    assert_eq!(waiting.step(TagEvent::Presence(ReaderReply::Failed)), None);
    assert_eq!(waiting.phase(), TagPhase::AwaitingRemoval);
}

#[test]
fn removal_wait_ends_with_the_first_failure() {
    assert_eq!(wait_iterations(&[Failed]), Some(1));
    assert_eq!(wait_iterations(&[Answered, Answered, Failed]), Some(3));
    assert_eq!(wait_iterations(&[Collision, Answered, Collision, Collision, Failed]), Some(5));
    assert_eq!(wait_iterations(&[Answered, Failed, Failed, Answered]), Some(2));
}

#[test]
fn collisions_never_end_the_removal_wait() {
    let script = vec![ReaderReply::Collision; 1000];
    assert_eq!(wait_iterations(&script), None);
    assert_eq!(wait_iterations(&[]), None);
    assert_eq!(wait_iterations(&[ReaderReply::Answered, ReaderReply::Collision]), None);
}

#[test]
fn the_loop_starts_over_after_removal() {
    let mut tag_loop = loop_awaiting_removal();
    assert!(tag_loop.indicator());
    assert_eq!(tag_loop.step(TagEvent::Wake(ReaderReply::Failed)), Some(TagAction::RequestPresence));
    assert_eq!(tag_loop.phase(), TagPhase::Detecting);
    assert!(!tag_loop.indicator());
    assert_eq!(tag_loop.step(TagEvent::Presence(ReaderReply::Answered)), Some(TagAction::Select));
}
