use play_sessions::summary::FUN_CATEGORIES;
use play_sessions::{PlayerProfile, PlaySession, SessionEvent, SessionStore, SessionSummary};

fn fun_score(sum: &SessionSummary) -> f64 {
    (sum.fun_categories as f64 / FUN_CATEGORIES as f64).clamp(0.0, 1.0)
}

// -- PlayerProfile -------------------------------------------------------

#[test]
fn player_new() {
    let p = PlayerProfile::new("Mika");
    assert_eq!(p.name, "Mika");
    assert_eq!(p.level, 1);
    assert_eq!(f64::from_bits(p.experience_bits), 0.0);
    assert!(p.tutorials_completed.is_empty());
}

// -- SessionEvent --------------------------------------------------------

#[test]
fn event_kind_names() {
    assert_eq!(
        SessionEvent::BuildAttempt {
            structure: "castle".into(),
            success: true
        }
        .kind(),
        "BuildAttempt"
    );
    assert_eq!(
        SessionEvent::LessonComplete {
            topic: "loops".into(),
            score_bits: 0.9f64.to_bits()
        }
        .kind(),
        "LessonComplete"
    );
    assert_eq!(
        SessionEvent::QuestComplete {
            quest: "dragons".into()
        }
        .kind(),
        "QuestComplete"
    );
}

// -- PlaySession ---------------------------------------------------------

#[test]
fn session_new() {
    let s = PlaySession::new("Mika");
    assert!(s.id.contains("Mika"));
    assert_eq!(s.events.len(), 0);
    assert_eq!(s.current_tick, 0);
}

#[test]
fn session_tick() {
    let mut s = PlaySession::new("Mika");
    s.tick();
    s.tick();
    s.tick();
    assert_eq!(s.current_tick, 3);
    assert_eq!(s.player.total_ticks, 3);
}

#[test]
fn session_record() {
    let mut s = PlaySession::new("Mika");
    s.record(SessionEvent::BuildAttempt {
        structure: "tower".into(),
        success: true,
    });
    assert_eq!(s.event_count(), 1);
    assert_eq!(s.player.total_builds, 1);
}

#[test]
fn session_record_failed_build() {
    let mut s = PlaySession::new("Mika");
    s.record(SessionEvent::BuildAttempt {
        structure: "bridge".into(),
        success: false,
    });
    assert_eq!(s.player.total_builds, 0);
}

#[test]
fn session_record_lesson() {
    let mut s = PlaySession::new("Ava");
    s.record(SessionEvent::LessonComplete {
        topic: "variables".into(),
        score_bits: 0.95f64.to_bits(),
    });
    assert!(s.player.tutorials_completed.contains(&"variables".to_string()));
}

#[test]
fn session_duration() {
    let mut s = PlaySession::new("Leo");
    for _ in 0..10 {
        s.tick();
    }
    assert_eq!(s.duration_ticks(), 10);
}

#[test]
fn session_events_by_type() {
    let mut s = PlaySession::new("Sam");
    s.record(SessionEvent::BuildAttempt {
        structure: "a".into(),
        success: true,
    });
    s.record(SessionEvent::BuildAttempt {
        structure: "b".into(),
        success: false,
    });
    s.record(SessionEvent::QuestComplete {
        quest: "q1".into(),
    });
    let map = s.events_by_type();
    assert_eq!(*map.get("BuildAttempt").unwrap(), 2);
    assert_eq!(*map.get("QuestComplete").unwrap(), 1);
}

// -- SessionSummary ------------------------------------------------------

#[test]
fn summary_basic() {
    let mut s = PlaySession::new("Mika");
    for _ in 0..5 {
        s.tick();
    }
    s.record(SessionEvent::BuildAttempt {
        structure: "house".into(),
        success: true,
    });
    s.record(SessionEvent::LessonComplete {
        topic: "loops".into(),
        score_bits: 1.0f64.to_bits(),
    });
    let sum = SessionSummary::generate(&s);
    assert_eq!(sum.player, "Mika");
    assert_eq!(sum.duration, 5);
    assert_eq!(sum.total_events, 2);
    assert_eq!(sum.builds, 1);
    assert_eq!(sum.lessons, 1);
    assert_eq!(sum.quests, 0);
    assert_eq!(sum.collabs, 0);
}

#[test]
fn summary_fun_score_variety() {
    let mut s = PlaySession::new("Ava");
    // Cover all 6 fun categories.
    s.record(SessionEvent::BuildAttempt { structure: "x".into(), success: true });
    s.record(SessionEvent::LessonComplete { topic: "t".into(), score_bits: 1.0f64.to_bits() });
    s.record(SessionEvent::QuestComplete { quest: "q".into() });
    s.record(SessionEvent::Collaborate { with: vec!["B".into()] });
    s.record(SessionEvent::PetAction { pet: "Cat".into(), action: "feed".into() });
    s.record(SessionEvent::AgentInteraction { agent: "Tutor".into(), action: "chat".into() });
    let sum = SessionSummary::generate(&s);
    assert!((fun_score(&sum) - 1.0).abs() < f64::EPSILON);
}

#[test]
fn summary_fun_score_low() {
    let mut s = PlaySession::new("Leo");
    // Only builds — 1 out of 6 categories.
    s.record(SessionEvent::BuildAttempt { structure: "x".into(), success: true });
    let sum = SessionSummary::generate(&s);
    let expected = 1.0 / 6.0;
    assert!((fun_score(&sum) - expected).abs() < 1e-9);
}

#[test]
fn summary_top_activity() {
    let mut s = PlaySession::new("Sam");
    s.record(SessionEvent::BuildAttempt { structure: "a".into(), success: true });
    s.record(SessionEvent::BuildAttempt { structure: "b".into(), success: true });
    s.record(SessionEvent::QuestComplete { quest: "q".into() });
    let sum = SessionSummary::generate(&s);
    assert_eq!(sum.top_activity, "BuildAttempt");
}

// -- SessionStore --------------------------------------------------------

#[test]
fn store_create_session() {
    let mut store = SessionStore::new();
    let s = store.create_session("Mika");
    assert_eq!(s.player.name, "Mika");
    let id = s.id.clone();
    assert!(store.sessions.contains_key(&id));
}

#[test]
fn store_end_session() {
    let mut store = SessionStore::new();
    let s = store.create_session("Mika");
    let id = s.id.clone();
    for _ in 0..3 {
        store.sessions.get_mut(&id).unwrap().tick();
    }
    let summary = store.end_session(&id).unwrap();
    assert_eq!(summary.player, "Mika");
    assert_eq!(summary.duration, 3);
}

#[test]
fn store_player_sessions() {
    let mut store = SessionStore::new();
    let s1 = store.create_session("Mika");
    let id1 = s1.id.clone();
    store.end_session(&id1);
    let s2 = store.create_session("Ava");
    let id2 = s2.id.clone();
    store.end_session(&id2);
    let s3 = store.create_session("Mika");
    let id3 = s3.id.clone();
    store.end_session(&id3);
    let mika = store.player_sessions("Mika");
    assert_eq!(mika.len(), 2);
    let ava = store.player_sessions("Ava");
    assert_eq!(ava.len(), 1);
}

#[test]
fn store_total_play_time() {
    let mut store = SessionStore::new();
    let s1 = store.create_session("A");
    let id1 = s1.id.clone();
    for _ in 0..5 {
        store.sessions.get_mut(&id1).unwrap().tick();
    }
    store.end_session(&id1);
    let s2 = store.create_session("B");
    let id2 = s2.id.clone();
    for _ in 0..10 {
        store.sessions.get_mut(&id2).unwrap().tick();
    }
    store.end_session(&id2);
    assert_eq!(store.total_play_time(), 15);
}
