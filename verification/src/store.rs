use vstd::prelude::*;

use crate::map::TextMap;
use crate::session::{session_label, PlaySession};
use crate::summary::{counts_fit, SessionSummary};

verus! {

/// The summaries among `summaries` that belong to `player`, in order.
pub open spec fn summaries_of(summaries: Seq<SessionSummary>, player: Seq<char>) -> Seq<SessionSummary>
    decreases summaries.len(),
{
    if summaries.len() == 0 {
        Seq::empty()
    } else {
        let rest = summaries_of(summaries.drop_last(), player);
        if summaries.last().player@ == player {
            rest.push(summaries.last())
        } else {
            rest
        }
    }
}

/// The sum of the durations of `summaries`.
pub open spec fn total_duration(summaries: Seq<SessionSummary>) -> nat
    decreases summaries.len(),
{
    if summaries.len() == 0 {
        0
    } else {
        total_duration(summaries.drop_last()) + summaries.last().duration as nat
    }
}

/// `s` is a session just begun by `player`.
pub open spec fn is_new_session(s: PlaySession, player: Seq<char>) -> bool {
    &&& s.id@ == session_label(player, 0)
    &&& s.player.is_fresh(player)
    &&& s.events@.len() == 0
    &&& s.start_tick == 0
    &&& s.current_tick == 0
    &&& s.rooms_visited@.len() == 0
}

/// The sessions under way, keyed by session id, and the summaries of the
/// sessions that were ended, in the order in which they were ended.
#[derive(Debug, Clone)]
pub struct SessionStore {
    pub sessions: TextMap<PlaySession>,
    pub summaries: Vec<SessionSummary>,
}

impl SessionStore {
    /// The session map holds no id twice.
    pub open spec fn well_formed(self) -> bool {
        self.sessions.well_formed()
    }

    /// An empty store.
    pub fn new() -> (s: Self)
        ensures
            s.well_formed(),
            s.sessions@ == Map::<Seq<char>, PlaySession>::empty(),
            s.summaries@.len() == 0,
    {
        SessionStore { sessions: TextMap::new(), summaries: Vec::new() }
    }

    /// Begins a session of `player` and stores it under its id, in place of
    /// any session stored under that id; returns the stored session.
    pub fn create_session(&mut self, player: &str) -> (s: &mut PlaySession)
        requires
            old(self).well_formed(),
        ensures
            final(self).well_formed(),
            is_new_session(*s, player@),
            s.player.name@ == player@,
            s.player.level == 1,
            s.player.experience_bits == 0,
            s.player.total_builds == 0,
            s.player.total_ticks == 0,
            s.player.tutorials_completed@.len() == 0,
            s.player.badges_earned@.len() == 0,
            s.player.pets@.len() == 0,
            s.player.friends@.len() == 0,
            s.events@.len() == 0,
            s.current_tick == 0,
            s.start_tick == 0,
            final(self).sessions@ == old(self).sessions@.insert(session_label(player@, 0), *final(s)),
            final(self).summaries == old(self).summaries,
    {
        let session = PlaySession::new(player);
        let id = session.id.clone();
        self.sessions.insert(id.clone(), session);
        self.sessions.get_mut(id.as_str()).unwrap()
    }

    /// Ends the session stored under `id`: appends its summary to the
    /// summaries and returns it. Returns `None`, and changes nothing, when no
    /// session is stored under `id`. The session itself stays stored.
    pub fn end_session(&mut self, id: &str) -> (r: Option<SessionSummary>)
        requires
            old(self).well_formed(),
            old(self).sessions@.contains_key(id@) ==> counts_fit(old(self).sessions@[id@].events@),
        ensures
            final(self).well_formed(),
            r is None <==> !old(self).sessions@.contains_key(id@),
            r is None ==> *final(self) == *old(self),
            r matches Some(summary) ==> {
                &&& summary.summarizes(old(self).sessions@[id@])
                &&& final(self).summaries@ == old(self).summaries@.push(summary)
                &&& final(self).sessions == old(self).sessions
            },
    {
        match self.sessions.get(id) {
            Some(session) => {
                let summary = SessionSummary::generate(session);
                self.summaries.push(summary.clone());
                Some(summary)
            },
            None => None,
        }
    }

    /// The summaries of `player`'s ended sessions, in order.
    pub fn player_sessions(&self, player: &str) -> (r: Vec<&SessionSummary>)
        ensures
            r@.len() == summaries_of(self.summaries@, player@).len(),
            forall|i: int| 0 <= i < r@.len() ==> *r@[i] == summaries_of(self.summaries@, player@)[i],
    {
        let name = player.to_string();
        let mut r: Vec<&SessionSummary> = Vec::new();
        let mut i: usize = 0;
        while i < self.summaries.len()
            invariant
                i <= self.summaries.len(),
                name@ == player@,
                r@.len() == summaries_of(self.summaries@.take(i as int), player@).len(),
                forall|j: int| 0 <= j < r@.len() ==> *r@[j] == summaries_of(self.summaries@.take(i as int), player@)[j],
            decreases self.summaries.len() - i,
        {
            assert(self.summaries@.take(i + 1).drop_last() =~= self.summaries@.take(i as int));
            let s = &self.summaries[i];
            if s.player == name {
                r.push(s);
            }
            i = i + 1;
        }
        assert(self.summaries@.take(self.summaries.len() as int) =~= self.summaries@);
        r
    }

    /// The sum of the durations of all ended sessions.
    pub fn total_play_time(&self) -> (t: u64)
        requires
            total_duration(self.summaries@) <= u64::MAX,
        ensures
            t == total_duration(self.summaries@),
    {
        let mut t: u64 = 0;
        let mut i: usize = 0;
        while i < self.summaries.len()
            invariant
                i <= self.summaries.len(),
                total_duration(self.summaries@) <= u64::MAX,
                t == total_duration(self.summaries@.take(i as int)),
            decreases self.summaries.len() - i,
        {
            assert(self.summaries@.take(i + 1).drop_last() =~= self.summaries@.take(i as int));
            proof {
                lemma_total_duration_prefix(self.summaries@, i + 1);
            }
            t = t + self.summaries[i].duration;
            i = i + 1;
        }
        assert(self.summaries@.take(self.summaries.len() as int) =~= self.summaries@);
        t
    }
}

/// A prefix's total duration is at most the whole total.
pub proof fn lemma_total_duration_prefix(s: Seq<SessionSummary>, n: int)
    requires
        0 <= n <= s.len(),
    ensures
        total_duration(s.take(n)) <= total_duration(s),
    decreases s.len(),
{
    if n < s.len() {
        assert(s.drop_last().take(n) =~= s.take(n));
        lemma_total_duration_prefix(s.drop_last(), n);
    } else {
        assert(s.take(n) =~= s);
    }
}

impl Default for SessionStore {
    fn default() -> (s: Self)
        ensures
            s.well_formed(),
            s.sessions@ == Map::<Seq<char>, PlaySession>::empty(),
            s.summaries@.len() == 0,
    {
        Self::new()
    }
}

/// Ending a session adds its duration to the total play time.
pub proof fn law_ended_session_adds_play_time(summaries: Seq<SessionSummary>, s: SessionSummary)
    ensures
        total_duration(summaries.push(s)) == total_duration(summaries) + s.duration,
{
    assert(summaries.push(s).drop_last() =~= summaries);
}

/// Ending a session adds its summary to its player's sessions, and to no
/// other player's.
pub proof fn law_ended_session_joins_player_sessions(summaries: Seq<SessionSummary>, s: SessionSummary, player: Seq<char>)
    ensures
        summaries_of(summaries.push(s), player) == if s.player@ == player {
            summaries_of(summaries, player).push(s)
        } else {
            summaries_of(summaries, player)
        },
{
    assert(summaries.push(s).drop_last() =~= summaries);
}

/// A player's sessions are those summaries, in order, whose player is that
/// player; there are never more of them than summaries.
pub proof fn law_player_sessions_belong_to_player(summaries: Seq<SessionSummary>, player: Seq<char>)
    ensures
        summaries_of(summaries, player).len() <= summaries.len(),
        forall|i: int| 0 <= i < summaries_of(summaries, player).len()
            ==> (#[trigger] summaries_of(summaries, player)[i]).player@ == player,
        forall|i: int| 0 <= i < summaries.len() && (#[trigger] summaries[i]).player@ == player
            ==> summaries_of(summaries, player).contains(summaries[i]),
    decreases summaries.len(),
{
    if summaries.len() > 0 {
        let rest = summaries.drop_last();
        law_player_sessions_belong_to_player(rest, player);
        assert forall|i: int| 0 <= i < summaries.len() && (#[trigger] summaries[i]).player@ == player
            implies summaries_of(summaries, player).contains(summaries[i]) by {
            if i < summaries.len() - 1 {
                assert(rest[i] == summaries[i]);
                let k = choose|k: int| 0 <= k < summaries_of(rest, player).len() && summaries_of(rest, player)[k] == rest[i];
                if summaries.last().player@ == player {
                    assert(summaries_of(summaries, player)[k] == rest[i]);
                }
            } else {
                assert(summaries_of(summaries, player).last() == summaries[i]);
            }
        }
    }
}

/// The summary of a session just begun names its player and reports no
/// time, no events, no fun categories and no top activity.
pub proof fn law_new_session_summary(s: SessionSummary, session: PlaySession, player: Seq<char>)
    requires
        is_new_session(session, player),
        s.summarizes(session),
    ensures
        s.player@ == player,
        s.duration == 0,
        s.total_events == 0,
        s.builds == 0 && s.lessons == 0 && s.quests == 0 && s.collabs == 0,
        s.fun_categories == 0,
        s.top_activity@ == "none"@,
{
}

/// A session just begun has a fresh player, whatever was stored before
/// under its id: level 1, no experience, no builds, no ticks, nothing
/// completed, earned, owned or befriended, and no events.
pub proof fn law_new_session_has_fresh_player(s: PlaySession, player: Seq<char>)
    requires
        is_new_session(s, player),
    ensures
        s.player.name@ == player,
        s.player.level == 1,
        s.player.experience_bits == 0,
        s.player.total_builds == 0,
        s.player.total_ticks == 0,
        s.player.tutorials_completed@.len() == 0,
        s.player.badges_earned@.len() == 0,
        s.player.pets@.len() == 0,
        s.player.friends@.len() == 0,
        s.events@.len() == 0,
        s.current_tick == 0,
        s.start_tick == 0,
{
}

/// The total play time of a single summary is its duration, and that of no
/// summaries is zero.
pub proof fn law_total_duration_single(s: SessionSummary)
    ensures
        total_duration(Seq::<SessionSummary>::empty()) == 0,
        total_duration(seq![s]) == s.duration,
        summaries_of(seq![s], s.player@) == seq![s],
{
    assert(seq![s].drop_last() =~= Seq::<SessionSummary>::empty());
    assert(summaries_of(Seq::<SessionSummary>::empty(), s.player@) =~= Seq::<SessionSummary>::empty());
    assert(Seq::<SessionSummary>::empty().push(s) =~= seq![s]);
}

} // verus!
