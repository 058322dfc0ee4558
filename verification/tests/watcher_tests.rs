use abx::errors::AbxError;
use abx::graph::{PlayState, StreamKind};
use abx::watcher::{GraphEvent, TerminationWatcher, WatchStatus};
use abx::AudioSelector;

fn playing_selector() -> AudioSelector {
    AudioSelector::new()
        .unwrap()
        .with_source("a.flac".to_string())
        .unwrap()
        .with_source("b.flac".to_string())
        .unwrap()
        .run()
        .unwrap()
}

#[test]
fn end_of_stream_stops_exactly_once() {
    let mut sel = playing_selector();
    let mut watcher = TerminationWatcher::new();
    assert!(!watcher.finished());
    watcher.handle_event(&mut sel, GraphEvent::EndOfStream);
    assert_eq!(sel.current_state(), PlayState::Stopped);
    assert_eq!(watcher.status, WatchStatus::FinishedClean);
    assert_eq!(watcher.failure, None);
    // a later stop from the caller is a no-op that still succeeds
    assert_eq!(sel.stop(), Ok(()));
    assert_eq!(sel.current_state(), PlayState::Stopped);
}

#[test]
fn engine_fault_stops_and_records_the_failure() {
    let mut sel = playing_selector();
    let mut watcher = TerminationWatcher::new();
    watcher.handle_event(&mut sel, GraphEvent::EngineFault);
    assert_eq!(sel.current_state(), PlayState::Stopped);
    assert_eq!(watcher.status, WatchStatus::FinishedFailed);
    assert_eq!(watcher.failure, Some(AbxError::EngineError));
}

#[test]
fn events_after_a_terminal_state_are_ignored() {
    let mut sel = playing_selector();
    let mut watcher = TerminationWatcher::new();
    watcher.handle_event(&mut sel, GraphEvent::EndOfStream);
    sel.play().unwrap();
    watcher.handle_event(&mut sel, GraphEvent::EngineFault);
    assert_eq!(watcher.status, WatchStatus::FinishedClean);
    assert_eq!(watcher.failure, None);
    assert_eq!(sel.current_state(), PlayState::Playing);
}

#[test]
fn informational_events_change_nothing() {
    let mut sel = playing_selector();
    let mut watcher = TerminationWatcher::new();
    watcher.handle_event(&mut sel, GraphEvent::Informational);
    assert_eq!(watcher.status, WatchStatus::Watching);
    assert_eq!(sel.current_state(), PlayState::Playing);
}

#[test]
fn first_audio_stream_is_linked() {
    let mut sel = playing_selector();
    let mut watcher = TerminationWatcher::new();
    assert_eq!(sel.source_linked(0), Ok(false));
    watcher.handle_event(
        &mut sel,
        GraphEvent::StreamReady { source: 0, kind: StreamKind::Audio },
    );
    assert_eq!(sel.source_linked(0), Ok(true));
    assert_eq!(sel.source_linked(1), Ok(false));
    assert_eq!(watcher.status, WatchStatus::Watching);
}

#[test]
fn later_streams_are_ignored() {
    let mut sel = playing_selector();
    let mut watcher = TerminationWatcher::new();
    watcher.handle_event(
        &mut sel,
        GraphEvent::StreamReady { source: 0, kind: StreamKind::Audio },
    );
    watcher.handle_event(
        &mut sel,
        GraphEvent::StreamReady { source: 0, kind: StreamKind::Audio },
    );
    assert_eq!(sel.source_linked(0), Ok(true));
    assert_eq!(watcher.status, WatchStatus::Watching);
}

#[test]
fn non_audio_streams_are_not_linked() {
    let mut sel = playing_selector();
    let mut watcher = TerminationWatcher::new();
    watcher.handle_event(
        &mut sel,
        GraphEvent::StreamReady { source: 0, kind: StreamKind::Video },
    );
    watcher.handle_event(
        &mut sel,
        GraphEvent::StreamReady { source: 0, kind: StreamKind::Subtitle },
    );
    assert_eq!(sel.source_linked(0), Ok(false));
    assert_eq!(watcher.status, WatchStatus::Watching);
}

#[test]
fn link_failure_stops_and_finishes_failed() {
    let mut sel = playing_selector();
    let mut watcher = TerminationWatcher::new();
    watcher.handle_event(
        &mut sel,
        GraphEvent::StreamReady { source: 9, kind: StreamKind::Audio },
    );
    assert_eq!(sel.current_state(), PlayState::Stopped);
    assert_eq!(watcher.status, WatchStatus::FinishedFailed);
    assert_eq!(watcher.failure, Some(AbxError::LinkFailure));
}
