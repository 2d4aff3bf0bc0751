use mate_core::animation::{
    AnimationPlaylist, AnimationScheduler, ConfigError, RepeatMode,
};

fn playlist_abc() -> AnimationPlaylist {
    AnimationPlaylist::new(vec![
        String::from("A.clip"),
        String::from("B.clip"),
        String::from("C.clip"),
    ])
    .expect("non-empty playlist")
}

#[test]
fn empty_discovery_is_a_configuration_error() {
    let result = AnimationPlaylist::new(Vec::new());
    assert!(matches!(result, Err(ConfigError::EmptyPlaylist)));
}

#[test]
fn playlist_keeps_the_discovered_clips() {
    let playlist = playlist_abc();
    assert_eq!(playlist.len(), 3);
    assert_eq!(playlist.clips, vec!["A.clip", "B.clip", "C.clip"]);
}

#[test]
fn three_completions_yield_indices_one_two_zero() {
    let mut scheduler = AnimationScheduler::new(playlist_abc());
    assert_eq!(scheduler.current_index(), 0);
    let first = scheduler.on_clip_completed(10);
    assert_eq!((scheduler.current_index(), first.as_str()), (1, "B.clip"));
    let second = scheduler.on_clip_completed(20);
    assert_eq!((scheduler.current_index(), second.as_str()), (2, "C.clip"));
    let third = scheduler.on_clip_completed(30);
    assert_eq!((scheduler.current_index(), third.as_str()), (0, "A.clip"));
}

#[test]
fn a_full_cycle_returns_to_the_starting_index() {
    let mut scheduler = AnimationScheduler::new(playlist_abc());
    scheduler.on_clip_completed(5);
    let start = scheduler.current_index();
    for tick in 0..3 {
        scheduler.on_clip_completed(100 + tick);
    }
    assert_eq!(scheduler.current_index(), start);
}

#[test]
fn completion_needs_start_and_duration() {
    let mut scheduler = AnimationScheduler::new(playlist_abc());
    // nothing tracked yet: never complete
    assert!(!scheduler.is_completed(1_000_000));
    scheduler.on_clip_completed(10);
    // started at 10, duration not reported yet: a late report cannot have
    // caused a spurious completion in the meantime
    assert!(!scheduler.is_completed(1_000_000));
    scheduler.on_clip_loaded(100, 40);
    assert!(!scheduler.is_completed(139));
    assert!(scheduler.is_completed(140));
}

#[test]
fn tick_advances_exactly_when_complete() {
    let mut scheduler = AnimationScheduler::new(playlist_abc());
    scheduler.on_clip_loaded(0, 50);
    assert_eq!(scheduler.tick(49), None);
    assert_eq!(scheduler.current_index(), 0);
    let next = scheduler.tick(50);
    assert_eq!(next.as_deref(), Some("B.clip"));
    assert_eq!(scheduler.current_index(), 1);
    // the new clip has no duration yet, so the following tick does nothing
    assert_eq!(scheduler.tick(1000), None);
    assert_eq!(scheduler.current_index(), 1);
}

#[test]
fn one_shot_request_keeps_the_cycle_index() {
    let mut scheduler = AnimationScheduler::new(playlist_abc());
    scheduler.on_clip_completed(10); // now at index 1, playing B.clip
    scheduler.on_external_request(String::from("vrma/VRMA_02.vrma"), RepeatMode::PlayOnce);
    assert_eq!(scheduler.current_index(), 1);
    // the one-shot loads and runs its course
    scheduler.on_clip_loaded(200, 30);
    assert!(!scheduler.is_completed(229));
    assert!(scheduler.is_completed(230));
    // completing it resumes the cycle right after the pre-interruption index
    let resumed = scheduler.tick(230);
    assert_eq!(resumed.as_deref(), Some("C.clip"));
    assert_eq!(scheduler.current_index(), 2);
}

#[test]
fn repeat_forever_request_never_advances_the_cycle() {
    let mut scheduler = AnimationScheduler::new(playlist_abc());
    scheduler.on_external_request(String::from("vrma/VRMA_06.vrma"), RepeatMode::Forever);
    scheduler.on_clip_loaded(0, 25);
    assert!(scheduler.is_completed(500));
    assert_eq!(scheduler.tick(500), None);
    assert_eq!(scheduler.current_index(), 0);
    // replacing it with a one-shot frees the cycle again
    scheduler.on_external_request(String::from("vrma/VRMA_02.vrma"), RepeatMode::PlayOnce);
    scheduler.on_clip_loaded(600, 10);
    assert_eq!(scheduler.tick(610).as_deref(), Some("B.clip"));
    assert_eq!(scheduler.current_index(), 1);
}

#[test]
fn active_clip_is_the_external_one_while_preempted() {
    let mut scheduler = AnimationScheduler::new(playlist_abc());
    assert_eq!(scheduler.active_clip(), "A.clip");
    scheduler.on_external_request(String::from("vrma/VRMA_02.vrma"), RepeatMode::PlayOnce);
    assert_eq!(scheduler.active_clip(), "vrma/VRMA_02.vrma");
    scheduler.on_clip_loaded(0, 10);
    scheduler.tick(10);
    assert_eq!(scheduler.active_clip(), "B.clip");
}

#[test]
fn single_clip_playlist_cycles_onto_itself() {
    let playlist = AnimationPlaylist::new(vec![String::from("only.clip")]).unwrap();
    let mut scheduler = AnimationScheduler::new(playlist);
    let next = scheduler.on_clip_completed(10);
    assert_eq!(next, "only.clip");
    assert_eq!(scheduler.current_index(), 0);
}
