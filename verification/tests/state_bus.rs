//! Tests for the instrument state, the command bus, the feedback
//! channel, the console handlers and the HTTP-facing operations.

use std::sync::mpsc;

use rusty_pipes::apply_feedback;
use rusty_pipes::decode_midi_message;
use rusty_pipes::format_midi_message;
use rusty_pipes::get_organ_info;
use rusty_pipes::get_stops;
use rusty_pipes::handle_console_key;
use rusty_pipes::handle_midi_event;
use rusty_pipes::select_all_stops;
use rusty_pipes::select_none_stops;
use rusty_pipes::toggle_selected_stop;
use rusty_pipes::update_stop_channel;
use rusty_pipes::ApiUpdateOutcome;
use rusty_pipes::AppState;
use rusty_pipes::ChannelUpdateRequest;
use rusty_pipes::CommandBus;
use rusty_pipes::ConsoleKey;
use rusty_pipes::ConsoleOutcome;
use rusty_pipes::ConsoleState;
use rusty_pipes::ControlMessage;
use rusty_pipes::FeedbackLink;
use rusty_pipes::FeedbackMessage;
use rusty_pipes::Organ;
use rusty_pipes::StateError;
use rusty_pipes::Stop;

fn demo_organ(stops: usize) -> Organ {
    let mut list: Vec<Stop> = Vec::new();
    for i in 0..stops {
        list.push(Stop {
            name: format!("Stop {}", i),
            sample_refs: vec![format!("samples/{}.wav", i)],
        });
    }
    Organ::new("Demo Organ".to_string(), list)
}

fn fresh(
    stops: usize,
) -> (AppState, CommandBus, mpsc::Receiver<ControlMessage>) {
    let (tx, rx) = mpsc::channel();
    (AppState::new(demo_organ(stops)), CommandBus::new(tx), rx)
}

#[test]
fn redundant_toggle_still_emits_and_keeps_one_entry() {
    // a 3-stop instrument; enabling (1, 0) twice keeps {0} and sends
    // two StopToggle(1, true) messages
    let (mut state, mut bus, rx) = fresh(3);
    assert!(state.set_stop_channel(&mut bus, 1, 0, true).is_ok());
    assert!(state.set_stop_channel(&mut bus, 1, 0, true).is_ok());
    assert_eq!(state.matrix.active_channels(1), vec![0u8]);
    assert_eq!(
        rx.try_recv().unwrap(),
        ControlMessage::StopToggle { stop_index: 1, active: true }
    );
    assert_eq!(
        rx.try_recv().unwrap(),
        ControlMessage::StopToggle { stop_index: 1, active: true }
    );
    assert!(rx.try_recv().is_err());
    // out of range fails, the boundary index succeeds
    assert_eq!(
        state.set_stop_channel(&mut bus, 3, 0, true),
        Err(StateError::IndexOutOfRange)
    );
    assert!(state.set_stop_channel(&mut bus, 2, 0, true).is_ok());
}

#[test]
fn final_membership_follows_last_call_and_counts_messages() {
    let (mut state, mut bus, rx) = fresh(2);
    let calls = [true, false, true, true, false];
    for &active in &calls {
        assert!(state.set_stop_channel(&mut bus, 0, 3, active).is_ok());
    }
    assert!(!state.matrix.is_active(0, 3));
    let mut received = 0;
    while let Ok(msg) = rx.try_recv() {
        let expected = ControlMessage::StopToggle { stop_index: 0, active: calls[received] };
        assert_eq!(msg, expected);
        received += 1;
    }
    assert_eq!(received, calls.len());
}

#[test]
fn invalid_channel_is_rejected_without_effect() {
    let (mut state, mut bus, rx) = fresh(2);
    assert_eq!(
        state.set_stop_channel(&mut bus, 0, 16, true),
        Err(StateError::InvalidChannel)
    );
    assert!(rx.try_recv().is_err());
    assert!(state.matrix.active_channels(0).is_empty());
}

#[test]
fn disconnected_bus_commits_the_edit() {
    let (mut state, mut bus, rx) = fresh(2);
    drop(rx);
    assert_eq!(
        state.set_stop_channel(&mut bus, 1, 2, true),
        Err(StateError::BusDisconnected)
    );
    // the state change was committed and is not rolled back
    assert!(state.matrix.is_active(1, 2));
}

#[test]
fn log_buffer_keeps_ten_lines_and_one_error() {
    let (mut state, _bus, _rx) = fresh(1);
    for i in 0..12 {
        apply_feedback(&mut state, FeedbackMessage::Log { text: format!("line {}", i) });
    }
    let lines = state.log.snapshot();
    assert_eq!(lines.len(), 10);
    assert_eq!(lines[0], "line 2");
    assert_eq!(lines[9], "line 11");
    assert!(state.log.error_text().is_none());
    apply_feedback(&mut state, FeedbackMessage::Error { text: "first".to_string() });
    apply_feedback(&mut state, FeedbackMessage::Error { text: "second".to_string() });
    assert_eq!(state.log.error_text().unwrap(), "second");
    assert_eq!(state.log.snapshot().len(), 10);
}

#[test]
fn api_update_validates_and_logs() {
    let (mut state, mut bus, rx) = fresh(4);
    let enable = ChannelUpdateRequest { active: true };
    assert_eq!(
        update_stop_channel(&mut state, &mut bus, 0, 16, &enable),
        ApiUpdateOutcome::BadChannel
    );
    assert_eq!(
        update_stop_channel(&mut state, &mut bus, 4, 0, &enable),
        ApiUpdateOutcome::UnknownStop
    );
    assert!(rx.try_recv().is_err());
    assert_eq!(
        update_stop_channel(&mut state, &mut bus, 3, 4, &enable),
        ApiUpdateOutcome::Updated
    );
    assert_eq!(
        rx.try_recv().unwrap(),
        ControlMessage::StopToggle { stop_index: 3, active: true }
    );
    let lines = state.log.snapshot();
    assert_eq!(lines.len(), 1);
    assert_eq!(lines[0], "API: Enabled Stop 3 for Ch 5");
    let disable = ChannelUpdateRequest { active: false };
    assert_eq!(
        update_stop_channel(&mut state, &mut bus, 3, 4, &disable),
        ApiUpdateOutcome::Updated
    );
    assert_eq!(
        rx.try_recv().unwrap(),
        ControlMessage::StopToggle { stop_index: 3, active: false }
    );
    assert_eq!(state.log.snapshot()[1], "API: Disabled Stop 3 for Ch 5");
}

#[test]
fn api_update_reports_a_hung_up_renderer() {
    let (mut state, mut bus, rx) = fresh(2);
    drop(rx);
    let enable = ChannelUpdateRequest { active: true };
    assert_eq!(
        update_stop_channel(&mut state, &mut bus, 0, 0, &enable),
        ApiUpdateOutcome::Failed
    );
    // committed anyway, and no log line for the failed delivery
    assert!(state.matrix.is_active(0, 0));
    assert!(state.log.snapshot().is_empty());
}

#[test]
fn stop_status_lists_channels_ascending() {
    let (mut state, mut bus, _rx) = fresh(2);
    for ch in [7u8, 2, 11] {
        state.set_stop_channel(&mut bus, 1, ch, true).unwrap();
    }
    let report = get_stops(&state);
    assert_eq!(report.len(), 2);
    assert_eq!(report[0].index, 0);
    assert_eq!(report[0].name, "Stop 0");
    assert!(report[0].active_channels.is_empty());
    assert_eq!(report[1].active_channels, vec![2u8, 7, 11]);
    assert_eq!(get_organ_info(&state).name, "Demo Organ");
}

#[test]
fn console_navigation_wraps_and_clamps() {
    // seven stops in three columns of three
    let mut console = ConsoleState::new(7);
    assert_eq!(console.selected_index(), 0);
    let (mut state, mut bus, _rx) = fresh(7);
    handle_console_key(&mut console, &mut state, &mut bus, 0, ConsoleKey::PrevItem).unwrap();
    assert_eq!(console.selected_index(), 6);
    handle_console_key(&mut console, &mut state, &mut bus, 0, ConsoleKey::NextItem).unwrap();
    assert_eq!(console.selected_index(), 0);
    handle_console_key(&mut console, &mut state, &mut bus, 0, ConsoleKey::NextColumn).unwrap();
    assert_eq!(console.selected_index(), 3);
    handle_console_key(&mut console, &mut state, &mut bus, 0, ConsoleKey::NextColumn).unwrap();
    assert_eq!(console.selected_index(), 6);
    handle_console_key(&mut console, &mut state, &mut bus, 0, ConsoleKey::NextColumn).unwrap();
    assert_eq!(console.selected_index(), 6);
    handle_console_key(&mut console, &mut state, &mut bus, 0, ConsoleKey::PrevColumn).unwrap();
    assert_eq!(console.selected_index(), 3);
}

#[test]
fn console_toggle_flips_membership() {
    let mut console = ConsoleState::new(3);
    let (mut state, mut bus, rx) = fresh(3);
    let (index, active) = toggle_selected_stop(&console, &mut state, &mut bus, 0).unwrap();
    assert_eq!((index, active), (0, true));
    let (_, active2) = toggle_selected_stop(&console, &mut state, &mut bus, 0).unwrap();
    assert!(!active2);
    assert_eq!(
        rx.try_recv().unwrap(),
        ControlMessage::StopToggle { stop_index: 0, active: true }
    );
    assert_eq!(
        rx.try_recv().unwrap(),
        ControlMessage::StopToggle { stop_index: 0, active: false }
    );
}

#[test]
fn select_all_and_none_send_only_changes() {
    let (mut state, mut bus, rx) = fresh(3);
    state.set_stop_channel(&mut bus, 1, 0, true).unwrap();
    let _ = rx.try_recv();
    select_all_stops(&mut state, &mut bus, 0).unwrap();
    // stop 1 was already active: only stops 0 and 2 get messages
    assert_eq!(
        rx.try_recv().unwrap(),
        ControlMessage::StopToggle { stop_index: 0, active: true }
    );
    assert_eq!(
        rx.try_recv().unwrap(),
        ControlMessage::StopToggle { stop_index: 2, active: true }
    );
    assert!(rx.try_recv().is_err());
    select_none_stops(&mut state, &mut bus, 0).unwrap();
    let mut disabled = Vec::new();
    while let Ok(ControlMessage::StopToggle { stop_index, active }) = rx.try_recv() {
        assert!(!active);
        disabled.push(stop_index);
    }
    assert_eq!(disabled, vec![0, 1, 2]);
    for i in 0..3 {
        assert!(state.matrix.active_channels(i).is_empty());
    }
}

#[test]
fn quit_key_sends_quit_and_exits() {
    let mut console = ConsoleState::new(2);
    let (mut state, mut bus, rx) = fresh(2);
    let outcome =
        handle_console_key(&mut console, &mut state, &mut bus, 0, ConsoleKey::Quit).unwrap();
    assert_eq!(outcome, ConsoleOutcome::Exit);
    assert_eq!(rx.try_recv().unwrap(), ControlMessage::Quit);
}

#[test]
fn midi_formatting_matches_the_driver_log() {
    assert_eq!(
        format_midi_message(&[0x90, 0x3C, 0x64]),
        "0x90 0x3C 0x64 (Note On)"
    );
    assert_eq!(format_midi_message(&[0x85, 0x3C, 0x00]), "0x85 0x3C 0x00 (Note Off)");
    assert_eq!(format_midi_message(&[0xB0, 0x07, 0x7F]), "0xB0 0x07 0x7F (Control Change)");
    assert_eq!(format_midi_message(&[0xE0, 0x00, 0x40]), "0xE0 0x00 0x40 (Pitch Bend)");
    assert_eq!(format_midi_message(&[0xF8]), "0xF8 (Other)");
    assert_eq!(format_midi_message(&[]), " (Other)");
}

#[test]
fn midi_decoding_follows_status_ranges() {
    assert_eq!(
        decode_midi_message(&[0x90, 60, 100]),
        Some(ControlMessage::NoteOn { note: 60, velocity: 100 })
    );
    assert_eq!(
        decode_midi_message(&[0x9F, 1, 2]),
        Some(ControlMessage::NoteOn { note: 1, velocity: 2 })
    );
    assert_eq!(
        decode_midi_message(&[0x80, 60, 0]),
        Some(ControlMessage::NoteOff { note: 60 })
    );
    assert_eq!(decode_midi_message(&[0xB0, 7, 127]), None);
    assert_eq!(decode_midi_message(&[0x90, 60]), None);
    assert_eq!(decode_midi_message(&[]), None);
}

#[test]
fn midi_event_reaches_bus_and_feedback() {
    let (tx, rx) = mpsc::channel();
    let mut bus = CommandBus::new(tx);
    let (ftx, frx) = mpsc::channel();
    let mut feedback = FeedbackLink::new(ftx);
    handle_midi_event(&[0x90, 60, 100], &mut bus, &mut feedback);
    assert_eq!(
        rx.try_recv().unwrap(),
        ControlMessage::NoteOn { note: 60, velocity: 100 }
    );
    match frx.try_recv().unwrap() {
        FeedbackMessage::Log { text } => assert_eq!(text, "0x90 0x3C 0x64 (Note On)"),
        FeedbackMessage::Error { .. } => panic!("expected a log line"),
    }
    // an uninteresting event is logged but sends no command
    handle_midi_event(&[0xB0, 7, 127], &mut bus, &mut feedback);
    assert!(rx.try_recv().is_err());
    assert!(matches!(frx.try_recv().unwrap(), FeedbackMessage::Log { .. }));
}

#[test]
fn state_error_descriptions_are_stable() {
    assert_eq!(StateError::IndexOutOfRange.describe(), "stop index out of range");
    assert_eq!(StateError::InvalidChannel.describe(), "channel id out of range");
    assert_eq!(StateError::BusDisconnected.describe(), "command bus disconnected");
}
