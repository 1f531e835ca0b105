use vstd::prelude::*;
use vstd::string::*;

use crate::event::{
    count_kind, count_named, kind_index, kind_label, kind_label_str, law_kinds_partition_events,
    lemma_count_kind_bound, lemma_count_kind_positive, lemma_count_kind_take,
    lemma_count_named_kind, lemma_kind_labels_distinct, SessionEvent,
};
use crate::session::PlaySession;

verus! {

/// The number of "fun" categories: builds, lessons, quests, collaborations,
/// pet actions and agent interactions.
pub const FUN_CATEGORIES: u32 = 6;

/// 1 if there is at least one event of the kind at position `k`, else 0.
pub open spec fn present(events: Seq<SessionEvent>, k: nat) -> nat {
    if count_kind(events, k) > 0 { 1 } else { 0 }
}

/// How many of the fun categories occur among `events` (every kind but world
/// saves).
pub open spec fn active_fun_categories(events: Seq<SessionEvent>) -> nat {
    present(events, 0) + present(events, 1) + present(events, 2) + present(events, 3)
        + present(events, 5) + present(events, 6)
}

/// `top` names a kind that occurs among `events` at least as often as every
/// other kind; with no events at all it is "none".
pub open spec fn is_top_activity(events: Seq<SessionEvent>, top: Seq<char>) -> bool {
    if events.len() == 0 {
        top == "none"@
    } else {
        exists|i: nat|
            #![trigger kind_label(i)]
            i < 7 && top == kind_label(i) && count_kind(events, i) > 0
                && forall|j: nat| j < 7 ==> #[trigger] count_kind(events, j) <= count_kind(events, i)
    }
}

/// Every counter of a summary fits its type: each kind other than world
/// saves occurs at most `u32::MAX` times.
pub open spec fn counts_fit(events: Seq<SessionEvent>) -> bool {
    forall|k: nat| k < 7 && k != 4 ==> #[trigger] count_kind(events, k) <= u32::MAX
}

/// What a finished session amounted to.
///
/// The fun score of a session is `fun_categories / FUN_CATEGORIES`, a
/// fraction in [0, 1].
#[derive(Debug)]
pub struct SessionSummary {
    pub player: String,
    pub duration: u64,
    pub total_events: usize,
    pub builds: u32,
    pub lessons: u32,
    pub quests: u32,
    pub collabs: u32,
    pub top_activity: String,
    pub fun_categories: u32,
}

/// A copy of a summary equals it.
impl Clone for SessionSummary {
    fn clone(&self) -> (r: Self)
        ensures
            r == *self,
    {
        SessionSummary {
            player: self.player.clone(),
            duration: self.duration,
            total_events: self.total_events,
            builds: self.builds,
            lessons: self.lessons,
            quests: self.quests,
            collabs: self.collabs,
            top_activity: self.top_activity.clone(),
            fun_categories: self.fun_categories,
        }
    }
}

impl SessionSummary {
    /// `self` is the summary of `session`.
    pub open spec fn summarizes(self, session: PlaySession) -> bool {
        let events = session.events@;
        &&& self.player@ == session.player.name@
        &&& self.duration == session.duration()
        &&& self.total_events == events.len()
        &&& self.builds == count_kind(events, 0)
        &&& self.lessons == count_kind(events, 1)
        &&& self.quests == count_kind(events, 2)
        &&& self.collabs == count_kind(events, 5)
        &&& self.fun_categories == active_fun_categories(events)
        &&& is_top_activity(events, self.top_activity@)
    }

    /// Summarises `session`. Among kinds that are equally the most frequent,
    /// the top activity is the one declared first.
    pub fn generate(session: &PlaySession) -> (s: Self)
        requires
            counts_fit(session.events@),
        ensures
            s.summarizes(*session),
            session.events@.len() > 0 ==> exists|i: nat|
                #![trigger kind_label(i)]
                i < 7 && s.top_activity@ == kind_label(i)
                    && forall|j: nat| j < i ==> #[trigger] count_kind(session.events@, j) < count_kind(session.events@, i),
    {
        let ghost events = session.events@;
        let n = session.events.len();
        let mut counts: Vec<usize> = vec![0usize; 7];
        let mut i: usize = 0;
        while i < n
            invariant
                n == events.len(),
                events == session.events@,
                i <= n,
                counts@.len() == 7,
                forall|k: int| 0 <= k < 7 ==> #[trigger] counts@[k] == count_kind(events.take(i as int), k as nat),
            decreases n - i,
        {
            let k = session.events[i].kind_position();
            proof {
                assert forall|j: nat| #![auto] true implies count_kind(events.take(i + 1), j)
                    == count_kind(events.take(i as int), j)
                        + if kind_index(events[i as int]) == j { 1nat } else { 0nat } by {
                    lemma_count_kind_take(events, i as int, j);
                }
                lemma_count_kind_bound(events.take(i as int), k as nat);
            }
            let c = counts[k] + 1;
            counts.set(k, c);
            i = i + 1;
        }
        proof {
            assert(events.take(n as int) =~= events);
            assert(count_kind(events, 0) <= u32::MAX);
            assert(count_kind(events, 1) <= u32::MAX);
            assert(count_kind(events, 2) <= u32::MAX);
            assert(count_kind(events, 5) <= u32::MAX);
        }

        // The top activity: the first kind with the highest count.
        let mut best: usize = 0;
        let mut j: usize = 1;
        while j < 7
            invariant
                counts@.len() == 7,
                1 <= j <= 7,
                best < j,
                forall|m: int| 0 <= m < j ==> #[trigger] counts@[m] <= counts@[best as int],
                forall|m: int| 0 <= m < best ==> #[trigger] counts@[m] < counts@[best as int],
            decreases 7 - j,
        {
            if counts[j] > counts[best] {
                best = j;
            }
            j = j + 1;
        }
        let top_activity = if n == 0 {
            String::from_str("none")
        } else {
            proof {
                lemma_count_kind_positive(events, 0);
                let k0 = kind_index(events[0]);
                assert(counts@[k0 as int] >= 1);
                assert forall|m: nat| m < 7 implies #[trigger] count_kind(events, m) <= count_kind(events, best as nat) by {
                    assert(counts@[m as int] <= counts@[best as int]);
                }
                assert forall|m: nat| m < best implies #[trigger] count_kind(events, m) < count_kind(events, best as nat) by {
                    assert(counts@[m as int] < counts@[best as int]);
                }
                assert(kind_label(best as nat) == kind_label(best as nat));
            }
            String::from_str(kind_label_str(best))
        };

        let fun_categories: u32 = (if counts[0] > 0 { 1u32 } else { 0u32 })
            + (if counts[1] > 0 { 1u32 } else { 0u32 })
            + (if counts[2] > 0 { 1u32 } else { 0u32 })
            + (if counts[3] > 0 { 1u32 } else { 0u32 })
            + (if counts[5] > 0 { 1u32 } else { 0u32 })
            + (if counts[6] > 0 { 1u32 } else { 0u32 });

        SessionSummary {
            player: session.player.name.clone(),
            duration: session.duration_ticks(),
            total_events: session.event_count(),
            builds: counts[0] as u32,
            lessons: counts[1] as u32,
            quests: counts[2] as u32,
            collabs: counts[5] as u32,
            top_activity,
            fun_categories,
        }
    }
}

/// A summary's counters are those of the session's events counted by kind
/// name, and its top activity is a kind name with the highest such count.
pub proof fn law_summary_agrees_with_event_counts(s: SessionSummary, session: PlaySession, name: Seq<char>)
    requires
        s.summarizes(session),
    ensures
        s.builds == count_named(session.events@, "BuildAttempt"@),
        s.lessons == count_named(session.events@, "LessonComplete"@),
        s.quests == count_named(session.events@, "QuestComplete"@),
        s.collabs == count_named(session.events@, "Collaborate"@),
        session.events@.len() > 0 ==> count_named(session.events@, s.top_activity@) > 0,
        count_named(session.events@, name) <= count_named(session.events@, s.top_activity@),
{
    let events = session.events@;
    lemma_count_named_kind(events, 0);
    lemma_count_named_kind(events, 1);
    lemma_count_named_kind(events, 2);
    lemma_count_named_kind(events, 5);
    law_kinds_partition_events(events);
    if events.len() > 0 {
        let i = choose|i: nat|
            #![trigger kind_label(i)]
            i < 7 && s.top_activity@ == kind_label(i) && count_kind(events, i) > 0
                && forall|j: nat| j < 7 ==> #[trigger] count_kind(events, j) <= count_kind(events, i);
        lemma_count_named_kind(events, i);
        if count_named(events, name) > 0 {
            let j = choose|j: nat| j < 7 && #[trigger] kind_label(j) == name;
            lemma_count_named_kind(events, j);
            assert(count_kind(events, j) <= count_kind(events, i));
        }
    }
}

/// The top activity is "none" exactly when the session has no events.
pub proof fn law_top_activity_none_iff_no_events(s: SessionSummary, session: PlaySession)
    requires
        s.summarizes(session),
    ensures
        s.top_activity@ == "none"@ <==> session.events@.len() == 0,
{
    reveal_strlit("none");
    lemma_kind_labels_distinct();
    reveal_strlit("BuildAttempt");
    reveal_strlit("LessonComplete");
    reveal_strlit("QuestComplete");
    reveal_strlit("AgentInteraction");
    reveal_strlit("WorldSave");
    reveal_strlit("Collaborate");
    reveal_strlit("PetAction");
    if session.events@.len() > 0 {
        let i = choose|i: nat|
            #![trigger kind_label(i)]
            i < 7 && s.top_activity@ == kind_label(i) && count_kind(session.events@, i) > 0
                && forall|j: nat| j < 7 ==> #[trigger] count_kind(session.events@, j) <= count_kind(session.events@, i);
        assert(kind_label(i).len() != 4);
    }
}

/// A session's fun score, `fun_categories / FUN_CATEGORIES`, lies in
/// [0, 1], and the counted categories never exceed the events.
pub proof fn law_summary_bounds(s: SessionSummary, session: PlaySession)
    requires
        s.summarizes(session),
    ensures
        s.fun_categories <= FUN_CATEGORIES,
        s.builds + s.lessons + s.quests + s.collabs <= s.total_events,
{
    law_kinds_partition_events(session.events@);
}

/// The fun categories counted by a summary are exactly the six kinds other
/// than world saves that occur at least once among the session's events.
pub proof fn law_fun_categories_count_present_kinds(s: SessionSummary, session: PlaySession)
    requires
        s.summarizes(session),
    ensures
        s.fun_categories == (if count_kind(session.events@, 0) > 0 { 1int } else { 0int })
            + (if count_kind(session.events@, 1) > 0 { 1int } else { 0int })
            + (if count_kind(session.events@, 2) > 0 { 1int } else { 0int })
            + (if count_kind(session.events@, 3) > 0 { 1int } else { 0int })
            + (if count_kind(session.events@, 5) > 0 { 1int } else { 0int })
            + (if count_kind(session.events@, 6) > 0 { 1int } else { 0int }),
        forall|k: nat| k < 7 && k != 4 && count_kind(session.events@, k) > 0 ==> #[trigger] present(session.events@, k) == 1,
{
}

/// Recording one more event never lowers the number of fun categories, and an
/// event of a fun kind (any kind but a world save) leaves its category
/// counted.
pub proof fn law_fun_categories_grow(
    s1: SessionSummary,
    session1: PlaySession,
    s2: SessionSummary,
    session2: PlaySession,
    e: SessionEvent,
)
    requires
        s1.summarizes(session1),
        s2.summarizes(session2),
        session2.events@ == session1.events@.push(e),
    ensures
        s2.fun_categories >= s1.fun_categories,
        kind_index(e) != 4 ==> count_kind(session2.events@, kind_index(e)) > 0,
        kind_index(e) != 4 && count_kind(session1.events@, kind_index(e)) == 0
            ==> s2.fun_categories == s1.fun_categories + 1,
        kind_index(e) == 4 ==> s2.fun_categories == s1.fun_categories,
{
    let e1 = session1.events@;
    let e2 = session2.events@;
    assert(e2.drop_last() =~= e1);
    assert forall|k: nat| #[trigger] count_kind(e2, k) == count_kind(e1, k) + if kind_index(e) == k { 1nat } else { 0nat } by {
        assert(e2.drop_last() =~= e1);
    }
    law_fun_categories_count_present_kinds(s1, session1);
    law_fun_categories_count_present_kinds(s2, session2);
    assert(count_kind(e2, 0) == count_kind(e1, 0) + if kind_index(e) == 0 { 1nat } else { 0nat });
    assert(count_kind(e2, 1) == count_kind(e1, 1) + if kind_index(e) == 1 { 1nat } else { 0nat });
    assert(count_kind(e2, 2) == count_kind(e1, 2) + if kind_index(e) == 2 { 1nat } else { 0nat });
    assert(count_kind(e2, 3) == count_kind(e1, 3) + if kind_index(e) == 3 { 1nat } else { 0nat });
    assert(count_kind(e2, 5) == count_kind(e1, 5) + if kind_index(e) == 5 { 1nat } else { 0nat });
    assert(count_kind(e2, 6) == count_kind(e1, 6) + if kind_index(e) == 6 { 1nat } else { 0nat });
    assert(count_kind(e2, kind_index(e)) == count_kind(e1, kind_index(e)) + 1);
}

/// A summary names the session's player, counts all its events, and its
/// duration is the clock's distance past the start (0 before the start).
pub proof fn law_summary_fields(s: SessionSummary, session: PlaySession)
    requires
        s.summarizes(session),
    ensures
        s.player@ == session.player.name@,
        s.total_events == session.events@.len(),
        session.current_tick >= session.start_tick ==> s.duration == session.current_tick - session.start_tick,
        session.current_tick < session.start_tick ==> s.duration == 0,
{
}

} // verus!
