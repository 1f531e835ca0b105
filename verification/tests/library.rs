use play_sessions::summary::FUN_CATEGORIES;
use play_sessions::{PlayerProfile, PlaySession, SessionEvent, SessionStore, SessionSummary, TextMap};

fn build(ok: bool) -> SessionEvent {
    SessionEvent::BuildAttempt { structure: "wall".into(), success: ok }
}

fn lesson(topic: &str) -> SessionEvent {
    SessionEvent::LessonComplete { topic: topic.into(), score_bits: 0.5f64.to_bits() }
}

#[test]
fn session_id_is_name_dash_tick() {
    let s = PlaySession::new("Mika");
    assert_eq!(s.id, "Mika-0");
    assert!(s.id.starts_with("Mika"));
    assert_eq!(PlaySession::new("").id, "-0");
}

#[test]
fn all_kind_names() {
    let events = vec![
        build(true),
        lesson("x"),
        SessionEvent::QuestComplete { quest: "q".into() },
        SessionEvent::AgentInteraction { agent: "a".into(), action: "b".into() },
        SessionEvent::WorldSave { message: "m".into() },
        SessionEvent::Collaborate { with: vec![] },
        SessionEvent::PetAction { pet: "p".into(), action: "a".into() },
    ];
    let names: Vec<&str> = events.iter().map(|e| e.kind()).collect();
    assert_eq!(
        names,
        vec![
            "BuildAttempt",
            "LessonComplete",
            "QuestComplete",
            "AgentInteraction",
            "WorldSave",
            "Collaborate",
            "PetAction"
        ]
    );
    let positions: Vec<usize> = events.iter().map(|e| e.kind_position()).collect();
    assert_eq!(positions, vec![0, 1, 2, 3, 4, 5, 6]);
}

#[test]
fn level_up_threshold_is_hundred_per_level() {
    let mut p = PlayerProfile::new("Leo");
    assert_eq!(p.level_up_threshold(), 100);
    p.level = 3;
    assert_eq!(p.level_up_threshold(), 300);
    p.level = u32::MAX;
    assert_eq!(p.level_up_threshold(), u32::MAX as u64 * 100);
}

#[test]
fn new_profile_is_empty() {
    let p = PlayerProfile::new("Kit");
    assert_eq!(p.experience_bits, 0.0f64.to_bits());
    assert!(p.badges_earned.is_empty() && p.pets.is_empty() && p.friends.is_empty());
    assert_eq!(p.total_builds, 0);
    assert_eq!(p.total_ticks, 0);
}

#[test]
fn tick_adds_one_to_duration() {
    let mut s = PlaySession::new("Leo");
    s.tick();
    let before = s.duration_ticks();
    s.tick();
    assert_eq!(s.duration_ticks(), before + 1);
    assert_eq!(s.start_tick, 0);
}

#[test]
fn duration_is_zero_before_start() {
    let mut s = PlaySession::new("Leo");
    s.start_tick = 10;
    s.current_tick = 4;
    assert_eq!(s.duration_ticks(), 0);
    s.current_tick = 12;
    assert_eq!(s.duration_ticks(), 2);
}

#[test]
fn record_counts_one_event_of_its_kind() {
    let mut s = PlaySession::new("Sam");
    s.record(build(true));
    s.record(SessionEvent::WorldSave { message: "saved".into() });
    let before = s.events_by_type();
    s.record(SessionEvent::WorldSave { message: "again".into() });
    let after = s.events_by_type();
    assert_eq!(s.event_count(), 3);
    assert_eq!(*before.get("WorldSave").unwrap(), 1);
    assert_eq!(*after.get("WorldSave").unwrap(), 2);
    assert_eq!(*after.get("BuildAttempt").unwrap(), 1);
    assert!(after.get("QuestComplete").is_none());
    assert!(!after.contains_key("PetAction"));
    assert!(after.get("worldsave").is_none());
}

#[test]
fn record_same_lesson_twice_lists_topic_once() {
    let mut s = PlaySession::new("Ava");
    s.record(lesson("loops"));
    s.record(lesson("loops"));
    s.record(lesson("functions"));
    assert_eq!(s.player.tutorials_completed, vec!["loops".to_string(), "functions".to_string()]);
    assert_eq!(s.event_count(), 3);
}

#[test]
fn record_other_events_leave_profile() {
    let mut s = PlaySession::new("Ava");
    s.record(SessionEvent::QuestComplete { quest: "q".into() });
    s.record(build(false));
    s.record(SessionEvent::PetAction { pet: "Cat".into(), action: "feed".into() });
    assert_eq!(s.player.total_builds, 0);
    assert!(s.player.tutorials_completed.is_empty());
    assert_eq!(s.player.level, 1);
    assert_eq!(s.current_tick, 0);
}

#[test]
fn summary_of_empty_session() {
    let s = PlaySession::new("Nia");
    let sum = SessionSummary::generate(&s);
    assert_eq!(sum.player, "Nia");
    assert_eq!(sum.duration, 0);
    assert_eq!(sum.total_events, 0);
    assert_eq!(sum.top_activity, "none");
    assert_eq!(sum.fun_categories, 0);
}

#[test]
fn summary_counts_match_events_by_type() {
    let mut s = PlaySession::new("Sam");
    s.record(build(true));
    s.record(build(false));
    s.record(lesson("a"));
    s.record(SessionEvent::Collaborate { with: vec!["B".into(), "C".into()] });
    s.record(SessionEvent::Collaborate { with: vec![] });
    s.record(SessionEvent::Collaborate { with: vec!["D".into()] });
    s.record(SessionEvent::WorldSave { message: "m".into() });
    let sum = SessionSummary::generate(&s);
    let map = s.events_by_type();
    assert_eq!(sum.builds as usize, *map.get("BuildAttempt").unwrap());
    assert_eq!(sum.lessons as usize, *map.get("LessonComplete").unwrap());
    assert_eq!(sum.collabs as usize, *map.get("Collaborate").unwrap());
    assert_eq!(sum.quests, 0);
    assert_eq!(sum.total_events, 7);
    assert_eq!(sum.top_activity, "Collaborate");
    assert_eq!(sum.fun_categories, 3);
    assert!(sum.fun_categories <= FUN_CATEGORIES);
}

#[test]
fn summary_top_activity_on_a_tie_is_the_first_declared_kind() {
    let mut s = PlaySession::new("Sam");
    s.record(SessionEvent::QuestComplete { quest: "q".into() });
    s.record(build(true));
    let sum = SessionSummary::generate(&s);
    assert_eq!(sum.top_activity, "BuildAttempt");
}

#[test]
fn summary_world_saves_only() {
    let mut s = PlaySession::new("Sam");
    s.record(SessionEvent::WorldSave { message: "m".into() });
    let sum = SessionSummary::generate(&s);
    assert_eq!(sum.top_activity, "WorldSave");
    assert_eq!(sum.fun_categories, 0);
    assert_eq!(sum.total_events, 1);
}

#[test]
fn store_default_is_empty() {
    let store = SessionStore::default();
    assert!(store.summaries.is_empty());
    assert!(!store.sessions.contains_key("Mika-0"));
    assert_eq!(store.total_play_time(), 0);
}

#[test]
fn store_end_unknown_session() {
    let mut store = SessionStore::new();
    store.create_session("Mika");
    assert!(store.end_session("Ava-0").is_none());
    assert!(store.end_session("Mika").is_none());
    assert!(store.summaries.is_empty());
    assert!(store.sessions.contains_key("Mika-0"));
}

#[test]
fn store_end_session_keeps_session_and_adds_time() {
    let mut store = SessionStore::new();
    let s = store.create_session("Mika");
    s.tick();
    s.tick();
    s.record(build(true));
    let first = store.end_session("Mika-0").unwrap();
    assert_eq!(first.duration, 2);
    assert_eq!(first.builds, 1);
    assert_eq!(store.total_play_time(), 2);
    // The session is still there; ending it again adds its time once more.
    let again = store.end_session("Mika-0").unwrap();
    assert_eq!(again.duration, 2);
    assert_eq!(store.total_play_time(), 4);
    assert_eq!(store.summaries.len(), 2);
}

#[test]
fn store_create_session_replaces_same_id() {
    let mut store = SessionStore::new();
    let s = store.create_session("Mika");
    s.tick();
    s.record(build(true));
    let s = store.create_session("Mika");
    assert_eq!(s.current_tick, 0);
    assert_eq!(s.event_count(), 0);
    let summary = store.end_session("Mika-0").unwrap();
    assert_eq!(summary.duration, 0);
    assert_eq!(summary.top_activity, "none");
}

#[test]
fn store_player_sessions_in_order() {
    let mut store = SessionStore::new();
    store.create_session("Mika");
    store.end_session("Mika-0");
    let s = store.create_session("Ava");
    s.tick();
    store.end_session("Ava-0");
    let s = store.create_session("Mika");
    for _ in 0..4 {
        s.tick();
    }
    store.end_session("Mika-0");
    let mika = store.player_sessions("Mika");
    assert_eq!(mika.len(), 2);
    assert_eq!(mika[0].duration, 0);
    assert_eq!(mika[1].duration, 4);
    assert!(mika.iter().all(|s| s.player == "Mika"));
    assert!(store.player_sessions("Leo").is_empty());
    assert_eq!(store.total_play_time(), 5);
}

#[test]
fn text_map_insert_get_replace() {
    let mut m: TextMap<u32> = TextMap::new();
    assert!(m.get("a").is_none());
    m.insert("a".to_string(), 1);
    m.insert("b".to_string(), 2);
    m.insert("a".to_string(), 3);
    assert_eq!(m.get("a"), Some(&3));
    assert_eq!(m.get("b"), Some(&2));
    assert!(m.contains_key("b"));
    assert!(!m.contains_key("c"));
    *m.get_mut("b").unwrap() += 10;
    assert_eq!(m.get("b"), Some(&12));
    assert!(m.get_mut("c").is_none());
    let entries = m.into_entries();
    assert_eq!(entries, vec![("a".to_string(), 3), ("b".to_string(), 12)]);
}
