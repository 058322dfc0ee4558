use abx::errors::AbxError;
use abx::graph::PlayState;
use abx::AudioSelector;

fn two_source_selector() -> AudioSelector {
    AudioSelector::new()
        .unwrap()
        .with_source("a.flac".to_string())
        .unwrap()
        .with_source("b.flac".to_string())
        .unwrap()
}

fn audible_flags(sel: &AudioSelector) -> Vec<bool> {
    let mut flags = Vec::new();
    let mut i = 0;
    while i < sel.source_count() {
        flags.push(sel.source_audible(i).unwrap());
        i += 1;
    }
    flags
}

#[test]
fn new_selector_is_fresh() {
    let sel = AudioSelector::new().unwrap();
    assert_eq!(sel.source_count(), 0);
    assert_eq!(sel.selected_index(), 0);
    assert_eq!(sel.current_state(), PlayState::Stopped);
}

#[test]
fn play_makes_first_source_audible() {
    let mut sel = two_source_selector();
    assert_eq!(audible_flags(&sel), vec![false, false]);
    sel.play().unwrap();
    assert_eq!(sel.current_state(), PlayState::Playing);
    assert_eq!(audible_flags(&sel), vec![true, false]);
    assert_eq!(sel.selected_index(), 0);
}

#[test]
fn run_plays_and_unmutes_first() {
    let sel = two_source_selector().run().unwrap();
    assert_eq!(sel.current_state(), PlayState::Playing);
    assert_eq!(audible_flags(&sel), vec![true, false]);
}

#[test]
fn next_switches_to_second_source() {
    let mut sel = two_source_selector();
    sel.play().unwrap();
    sel.next_source().unwrap();
    assert_eq!(sel.selected_index(), 1);
    assert_eq!(audible_flags(&sel), vec![false, true]);
}

#[test]
fn next_wraps_back_to_first_source() {
    let mut sel = two_source_selector();
    sel.play().unwrap();
    sel.next_source().unwrap();
    sel.next_source().unwrap();
    assert_eq!(sel.selected_index(), 0);
    assert_eq!(audible_flags(&sel), vec![true, false]);
}

#[test]
fn next_cycles_through_three_sources() {
    let mut sel = AudioSelector::new()
        .unwrap()
        .with_source("a.flac".to_string())
        .unwrap()
        .with_source("b.flac".to_string())
        .unwrap()
        .with_source("c.flac".to_string())
        .unwrap();
    sel.play().unwrap();
    let mut visited = vec![sel.selected_index()];
    for _ in 0..3 {
        sel.next_source().unwrap();
        visited.push(sel.selected_index());
    }
    assert_eq!(visited, vec![0, 1, 2, 0]);
    assert_eq!(audible_flags(&sel), vec![true, false, false]);
}

#[test]
fn next_on_single_source_stays_put() {
    let mut sel = AudioSelector::new()
        .unwrap()
        .with_source("only.flac".to_string())
        .unwrap();
    sel.play().unwrap();
    sel.next_source().unwrap();
    assert_eq!(sel.selected_index(), 0);
    assert_eq!(audible_flags(&sel), vec![true]);
}

#[test]
fn next_on_empty_registry_fails() {
    let mut sel = AudioSelector::new().unwrap();
    assert_eq!(sel.next_source(), Err(AbxError::EmptyRegistry));
}

#[test]
fn select_out_of_range_changes_nothing() {
    let mut sel = two_source_selector();
    sel.play().unwrap();
    sel.next_source().unwrap();
    sel.next_source().unwrap();
    // selection wrapped back to 0; a bad select must leave that state alone
    assert_eq!(sel.select_source(5), Err(AbxError::IndexOutOfRange));
    assert_eq!(sel.selected_index(), 0);
    assert_eq!(audible_flags(&sel), vec![true, false]);
    assert_eq!(sel.current_state(), PlayState::Playing);
}

#[test]
fn select_switches_audible_source() {
    let mut sel = two_source_selector();
    sel.play().unwrap();
    sel.select_source(1).unwrap();
    assert_eq!(sel.selected_index(), 1);
    assert_eq!(audible_flags(&sel), vec![false, true]);
    sel.select_source(1).unwrap();
    assert_eq!(audible_flags(&sel), vec![false, true]);
}

#[test]
fn stop_is_idempotent() {
    let mut sel = two_source_selector();
    sel.play().unwrap();
    sel.stop().unwrap();
    assert_eq!(sel.current_state(), PlayState::Stopped);
    let again = sel.stop();
    assert_eq!(again, Ok(()));
    assert_eq!(sel.current_state(), PlayState::Stopped);
}

#[test]
fn toggle_flips_playing_and_paused() {
    let mut sel = two_source_selector();
    sel.play().unwrap();
    sel.toggle().unwrap();
    assert_eq!(sel.current_state(), PlayState::Paused);
    sel.toggle().unwrap();
    assert_eq!(sel.current_state(), PlayState::Playing);
}

#[test]
fn toggle_while_stopped_is_a_noop() {
    let mut sel = two_source_selector();
    assert_eq!(sel.toggle(), Ok(()));
    assert_eq!(sel.current_state(), PlayState::Stopped);
}

#[test]
fn pause_sets_paused() {
    let mut sel = two_source_selector();
    sel.play().unwrap();
    sel.pause().unwrap();
    assert_eq!(sel.current_state(), PlayState::Paused);
}

#[test]
fn progress_before_any_data_is_not_ready() {
    let sel = AudioSelector::new().unwrap();
    assert_eq!(sel.progress(), Err(AbxError::NotReady));
}

#[test]
fn progress_with_only_one_quantity_is_not_ready() {
    let mut sel = two_source_selector();
    sel.play().unwrap();
    sel.note_position(10);
    assert_eq!(sel.progress(), Err(AbxError::NotReady));
}

#[test]
fn progress_with_zero_duration_is_not_ready() {
    let mut sel = two_source_selector();
    sel.note_position(10);
    sel.note_duration(0);
    assert_eq!(sel.progress(), Err(AbxError::NotReady));
}

#[test]
fn progress_reports_exact_percentages() {
    let mut sel = two_source_selector();
    sel.note_position(50);
    sel.note_duration(200);
    assert_eq!(sel.progress(), Ok(25));
    sel.note_position(0);
    assert_eq!(sel.progress(), Ok(0));
    sel.note_position(199);
    assert_eq!(sel.progress(), Ok(99));
    sel.note_position(200);
    assert_eq!(sel.progress(), Ok(100));
}

#[test]
fn progress_is_clamped_to_one_hundred() {
    let mut sel = two_source_selector();
    sel.note_duration(100);
    sel.note_position(5000);
    assert_eq!(sel.progress(), Ok(100));
    sel.note_position(u64::MAX);
    assert_eq!(sel.progress(), Ok(100));
}

#[test]
fn progress_stays_in_range_for_many_values() {
    let mut sel = two_source_selector();
    sel.note_duration(7);
    for pos in 0..20u64 {
        sel.note_position(pos);
        let p = sel.progress().unwrap();
        assert!(p <= 100);
    }
}

#[test]
fn with_source_rejects_empty_path() {
    let sel = AudioSelector::new().unwrap();
    assert!(matches!(
        sel.with_source(String::new()),
        Err(AbxError::ConfigurationError)
    ));
}

#[test]
fn with_source_fails_when_mixer_is_full() {
    let sel = AudioSelector::new_with_capacity(1)
        .with_source("a.flac".to_string())
        .unwrap();
    assert!(matches!(
        sel.with_source("b.flac".to_string()),
        Err(AbxError::ResourceExhausted)
    ));
}

#[test]
fn source_paths_are_kept_in_insertion_order() {
    let sel = two_source_selector();
    assert_eq!(sel.source_path(0).unwrap(), "a.flac");
    assert_eq!(sel.source_path(1).unwrap(), "b.flac");
    assert!(sel.source_path(2).is_none());
}

#[test]
fn source_queries_reject_bad_indices() {
    let sel = two_source_selector();
    assert_eq!(sel.source_audible(2), Err(AbxError::IndexOutOfRange));
    assert_eq!(sel.source_linked(2), Err(AbxError::IndexOutOfRange));
}

#[test]
fn adding_a_source_never_moves_the_selection() {
    let mut sel = two_source_selector();
    sel.play().unwrap();
    sel.next_source().unwrap();
    let sel = sel.with_source("c.flac".to_string()).unwrap();
    assert_eq!(sel.selected_index(), 1);
    assert_eq!(audible_flags(&sel), vec![false, true, false]);
}

#[test]
fn run_without_sources_still_plays() {
    let sel = AudioSelector::new().unwrap().run().unwrap();
    assert_eq!(sel.current_state(), PlayState::Playing);
    assert_eq!(sel.source_count(), 0);
}

#[test]
fn selection_made_before_play_is_kept() {
    let mut sel = two_source_selector();
    sel.select_source(1).unwrap();
    assert_eq!(audible_flags(&sel), vec![false, true]);
    sel.play().unwrap();
    assert_eq!(sel.selected_index(), 1);
    assert_eq!(audible_flags(&sel), vec![false, true]);
}

#[test]
fn error_descriptions_are_not_empty() {
    let errors = [
        AbxError::ConfigurationError,
        AbxError::ResourceExhausted,
        AbxError::LinkFailure,
        AbxError::IndexOutOfRange,
        AbxError::EmptyRegistry,
        AbxError::NotReady,
        AbxError::EngineError,
    ];
    for e in errors {
        assert!(!e.describe().is_empty());
    }
}
