use vstd::prelude::*;
use vstd::string::*;

use crate::event::{count_named, kind_name, lemma_count_named_bound, lemma_count_named_take, SessionEvent};
use crate::map::TextMap;
use crate::profile::PlayerProfile;
use crate::text::{contains_text, decimal, digit_char, push_decimal, texts};

verus! {

/// The identifier of a session of player `name` begun at `tick`:
/// the name, a dash, and the tick in decimal.
pub open spec fn session_label(name: Seq<char>, tick: nat) -> Seq<char> {
    name + seq!['-'] + decimal(tick)
}

fn session_id(name: &str, tick: u64) -> (id: String)
    ensures
        id@ == session_label(name@, tick as nat),
{
    let mut id = String::from_str(name);
    proof {
        reveal_strlit("-");
    }
    id.append("-");
    push_decimal(&mut id, tick);
    id
}

/// The event is a build attempt that succeeded.
pub open spec fn is_successful_build(e: SessionEvent) -> bool {
    e matches SessionEvent::BuildAttempt { success, .. } && success
}

/// The profile after an event has been recorded: a successful build counts
/// one build more, and a lesson on a topic not yet completed adds the topic
/// to the tutorials completed; nothing else changes.
pub open spec fn profile_after(before: PlayerProfile, after: PlayerProfile, e: SessionEvent) -> bool {
    &&& after.total_builds == before.total_builds + if is_successful_build(e) { 1int } else { 0int }
    &&& after.tutorials_completed@ == match e {
        SessionEvent::LessonComplete { topic, .. } =>
            if texts(before.tutorials_completed@).contains(topic@) {
                before.tutorials_completed@
            } else {
                before.tutorials_completed@.push(topic)
            },
        _ => before.tutorials_completed@,
    }
    &&& after.name == before.name
    &&& after.level == before.level
    &&& after.experience_bits == before.experience_bits
    &&& after.badges_earned == before.badges_earned
    &&& after.pets == before.pets
    &&& after.friends == before.friends
    &&& after.total_ticks == before.total_ticks
}

/// `after` is `before` one tick later: the session clock and the player's
/// tick count have each advanced by one, and nothing else has changed.
pub open spec fn ticked(before: PlaySession, after: PlaySession) -> bool {
    &&& after.current_tick == before.current_tick + 1
    &&& after.player.total_ticks == before.player.total_ticks + 1
    &&& after.id == before.id
    &&& after.events == before.events
    &&& after.start_tick == before.start_tick
    &&& after.rooms_visited == before.rooms_visited
    &&& after.player.name == before.player.name
    &&& after.player.level == before.player.level
    &&& after.player.experience_bits == before.player.experience_bits
    &&& after.player.tutorials_completed == before.player.tutorials_completed
    &&& after.player.badges_earned == before.player.badges_earned
    &&& after.player.pets == before.player.pets
    &&& after.player.friends == before.player.friends
    &&& after.player.total_builds == before.player.total_builds
}

/// `after` is `before` with event `e` recorded: `e` is appended to the
/// events, the profile is updated by it (see `profile_after`), and nothing
/// else has changed.
pub open spec fn recorded(before: PlaySession, after: PlaySession, e: SessionEvent) -> bool {
    &&& after.events@ == before.events@.push(e)
    &&& profile_after(before.player, after.player, e)
    &&& after.id == before.id
    &&& after.start_tick == before.start_tick
    &&& after.current_tick == before.current_tick
    &&& after.rooms_visited == before.rooms_visited
}

/// One player's session: who plays, what happened, and when.
#[derive(Debug, Clone)]
pub struct PlaySession {
    pub id: String,
    pub player: PlayerProfile,
    pub events: Vec<SessionEvent>,
    pub start_tick: u64,
    pub current_tick: u64,
    pub rooms_visited: Vec<String>,
}

impl PlaySession {
    /// The ticks elapsed since the session began (none if the clock stands
    /// before the start).
    pub open spec fn duration(self) -> nat {
        if self.current_tick >= self.start_tick {
            (self.current_tick - self.start_tick) as nat
        } else {
            0
        }
    }

    /// A new session of player `player_name`, begun at tick 0.
    pub fn new(player_name: &str) -> (s: Self)
        ensures
            s.id@ == session_label(player_name@, 0),
            s.player.is_fresh(player_name@),
            s.events@.len() == 0,
            s.start_tick == 0,
            s.current_tick == 0,
            s.rooms_visited@.len() == 0,
    {
        let tick: u64 = 0;
        PlaySession {
            id: session_id(player_name, tick),
            player: PlayerProfile::new(player_name),
            events: Vec::new(),
            start_tick: tick,
            current_tick: tick,
            rooms_visited: Vec::new(),
        }
    }

    /// Advances the session clock, and the player's tick count, by one.
    pub fn tick(&mut self)
        requires
            old(self).current_tick < u64::MAX,
            old(self).player.total_ticks < u64::MAX,
        ensures
            ticked(*old(self), *final(self)),
    {
        self.current_tick = self.current_tick + 1;
        self.player.total_ticks = self.player.total_ticks + 1;
    }

    /// Appends `event` to the session, and updates the player's profile by
    /// it (see `profile_after`).
    pub fn record(&mut self, event: SessionEvent)
        requires
            is_successful_build(event) ==> old(self).player.total_builds < u32::MAX,
        ensures
            recorded(*old(self), *final(self), event),
    {
        match &event {
            SessionEvent::BuildAttempt { success: true, .. } => {
                self.player.total_builds = self.player.total_builds + 1;
            },
            SessionEvent::LessonComplete { topic, .. } if !contains_text(
                &self.player.tutorials_completed,
                topic,
            ) => {
                self.player.tutorials_completed.push(topic.clone());
            },
            _ => {},
        }
        self.events.push(event);
    }

    /// The ticks elapsed since the session began, or 0 if the clock stands
    /// before the start.
    pub fn duration_ticks(&self) -> (d: u64)
        ensures
            d == self.duration(),
    {
        self.current_tick.saturating_sub(self.start_tick)
    }

    /// The number of events recorded.
    pub fn event_count(&self) -> (n: usize)
        ensures
            n == self.events@.len(),
    {
        self.events.len()
    }

    /// How many events of each kind were recorded, keyed by kind name; kinds
    /// with no event are absent.
    pub fn events_by_type(&self) -> (m: TextMap<usize>)
        ensures
            m.well_formed(),
            forall|name: Seq<char>| #[trigger] m@.contains_key(name) <==> count_named(self.events@, name) > 0,
            forall|name: Seq<char>| #[trigger] m@.contains_key(name) ==> m@[name] == count_named(self.events@, name),
    {
        let mut map: TextMap<usize> = TextMap::new();
        let mut i: usize = 0;
        while i < self.events.len()
            invariant
                i <= self.events.len(),
                map.well_formed(),
                forall|name: Seq<char>| #[trigger] map@.contains_key(name) <==> count_named(self.events@.take(i as int), name) > 0,
                forall|name: Seq<char>| #[trigger] map@.contains_key(name) ==> map@[name] == count_named(self.events@.take(i as int), name),
            decreases self.events.len() - i,
        {
            let name = self.events[i].kind();
            proof {
                lemma_count_named_bound(self.events@.take(i as int), name@);
                assert forall|n: Seq<char>| #![auto] true implies count_named(self.events@.take(i + 1), n)
                    == count_named(self.events@.take(i as int), n)
                        + if kind_name(self.events@[i as int]) == n { 1nat } else { 0nat } by {
                    lemma_count_named_take(self.events@, i as int, n);
                }
            }
            let count: usize = match map.get(name) {
                Some(c) => *c + 1,
                None => 1,
            };
            map.insert(String::from_str(name), count);
            i = i + 1;
        }
        assert(self.events@.take(self.events.len() as int) =~= self.events@);
        map
    }
}

/// A session's id begins with the name of its player.
pub proof fn law_session_id_starts_with_player(name: Seq<char>, tick: nat)
    ensures
        session_label(name, tick).len() > name.len(),
        session_label(name, tick).subrange(0, name.len() as int) == name,
        session_label(name, tick)[name.len() as int] == '-',
{
    assert(session_label(name, tick).subrange(0, name.len() as int) =~= name);
}

/// A new session's id is the player's name followed by "-0".
pub proof fn law_new_session_id(name: Seq<char>)
    ensures
        session_label(name, 0) == name + seq!['-', '0'],
{
    assert(decimal(0) == seq![digit_char(0)]);
    assert(session_label(name, 0) =~= name + seq!['-', '0']);
}

/// Each tick adds one tick to a session's duration, once the clock has
/// reached the start.
pub proof fn law_tick_adds_to_duration(before: PlaySession, after: PlaySession)
    requires
        ticked(before, after),
        before.current_tick >= before.start_tick,
    ensures
        after.duration() == before.duration() + 1,
{
}

/// Recording an event counts exactly one event more, under that event's kind
/// and no other.
pub proof fn law_record_counts_event(before: PlaySession, after: PlaySession, e: SessionEvent, name: Seq<char>)
    requires
        recorded(before, after, e),
    ensures
        after.events@.len() == before.events@.len() + 1,
        count_named(after.events@, name) == count_named(before.events@, name)
            + if kind_name(e) == name { 1nat } else { 0nat },
{
    assert(after.events@.drop_last() =~= before.events@);
}

/// Recording a lesson leaves its topic among the tutorials completed, and a
/// topic is never listed twice.
pub proof fn law_record_completes_lesson(before: PlaySession, after: PlaySession, e: SessionEvent)
    requires
        recorded(before, after, e),
        texts(before.player.tutorials_completed@).no_duplicates(),
    ensures
        texts(after.player.tutorials_completed@).no_duplicates(),
        e matches SessionEvent::LessonComplete { topic, .. } ==> texts(after.player.tutorials_completed@).contains(topic@),
{
    let b = before.player.tutorials_completed@;
    let a = after.player.tutorials_completed@;
    match e {
        SessionEvent::LessonComplete { topic, .. } => {
            if texts(b).contains(topic@) {
                assert(a == b);
            } else {
                assert(texts(a) =~= texts(b).push(topic@));
                assert(texts(a)[b.len() as int] == topic@);
                assert forall|i: int, j: int| 0 <= i < texts(a).len() && 0 <= j < texts(a).len() && i != j
                    implies texts(a)[i] != texts(a)[j] by {
                    if i < b.len() && j < b.len() {
                        assert(texts(b)[i] != texts(b)[j]);
                    } else if i == b.len() {
                        assert(texts(b)[j] == texts(a)[j]);
                    } else {
                        assert(texts(b)[i] == texts(a)[i]);
                    }
                }
            }
        },
        _ => {
            assert(a == b);
        },
    }
}

/// A successful build counts one build more; a failed build, and every
/// other kind of event, leaves the count of builds as it was.
pub proof fn law_record_counts_builds(before: PlaySession, after: PlaySession, e: SessionEvent)
    requires
        recorded(before, after, e),
    ensures
        match e {
            SessionEvent::BuildAttempt { success, .. } => after.player.total_builds
                == before.player.total_builds + if success { 1int } else { 0int },
            SessionEvent::LessonComplete { .. } => after.player.total_builds == before.player.total_builds,
            SessionEvent::QuestComplete { .. } => after.player.total_builds == before.player.total_builds,
            SessionEvent::AgentInteraction { .. } => after.player.total_builds == before.player.total_builds,
            SessionEvent::WorldSave { .. } => after.player.total_builds == before.player.total_builds,
            SessionEvent::Collaborate { .. } => after.player.total_builds == before.player.total_builds,
            SessionEvent::PetAction { .. } => after.player.total_builds == before.player.total_builds,
        },
{
}

/// Recording never removes a completed tutorial: every topic listed before
/// is still listed after. A lesson on a topic not yet listed appends that
/// topic at the end; a lesson on a listed topic, and every other kind of
/// event, leaves the list as it was.
pub proof fn law_record_keeps_tutorials(before: PlaySession, after: PlaySession, e: SessionEvent)
    requires
        recorded(before, after, e),
    ensures
        forall|t: Seq<char>| texts(before.player.tutorials_completed@).contains(t)
            ==> #[trigger] texts(after.player.tutorials_completed@).contains(t),
        after.player.tutorials_completed@.len() >= before.player.tutorials_completed@.len(),
        forall|i: int| 0 <= i < before.player.tutorials_completed@.len()
            ==> #[trigger] after.player.tutorials_completed@[i] == before.player.tutorials_completed@[i],
        match e {
            SessionEvent::LessonComplete { topic, .. } =>
                if texts(before.player.tutorials_completed@).contains(topic@) {
                    after.player.tutorials_completed@ == before.player.tutorials_completed@
                } else {
                    after.player.tutorials_completed@ == before.player.tutorials_completed@.push(topic)
                },
            _ => after.player.tutorials_completed@ == before.player.tutorials_completed@,
        },
{
    let b = before.player.tutorials_completed@;
    let a = after.player.tutorials_completed@;
    assert forall|i: int| 0 <= i < b.len() implies #[trigger] a[i] == b[i] by {
        match e {
            SessionEvent::LessonComplete { topic, .. } => {
                if !texts(b).contains(topic@) {
                    assert(a == b.push(topic));
                }
            },
            _ => {},
        }
    }
    assert(a.len() >= b.len());
    assert forall|t: Seq<char>| texts(b).contains(t) implies #[trigger] texts(a).contains(t) by {
        let i = choose|i: int| 0 <= i < texts(b).len() && texts(b)[i] == t;
        assert(a[i] == b[i]);
        assert(texts(a)[i] == t);
    }
}

/// A tick moves the session clock and the player's tick count on by exactly
/// one, and leaves the events, the start, the id, the builds and the
/// tutorials as they were.
pub proof fn law_tick_moves_clock(before: PlaySession, after: PlaySession)
    requires
        ticked(before, after),
    ensures
        after.current_tick == before.current_tick + 1,
        after.player.total_ticks == before.player.total_ticks + 1,
        after.start_tick == before.start_tick,
        after.events@ == before.events@,
        after.id@ == before.id@,
        after.player.name@ == before.player.name@,
        after.player.level == before.player.level,
        after.player.total_builds == before.player.total_builds,
        after.player.tutorials_completed@ == before.player.tutorials_completed@,
{
}

/// Recording appends the event as the last one and leaves the clock, the
/// id, the player's name, level, experience and tick count as they were.
pub proof fn law_record_appends_event(before: PlaySession, after: PlaySession, e: SessionEvent)
    requires
        recorded(before, after, e),
    ensures
        after.events@.len() == before.events@.len() + 1,
        after.events@.last() == e,
        forall|i: int| 0 <= i < before.events@.len() ==> #[trigger] after.events@[i] == before.events@[i],
        after.current_tick == before.current_tick,
        after.start_tick == before.start_tick,
        after.id@ == before.id@,
        after.player.name@ == before.player.name@,
        after.player.level == before.player.level,
        after.player.experience_bits == before.player.experience_bits,
        after.player.total_ticks == before.player.total_ticks,
{
}

} // verus!
