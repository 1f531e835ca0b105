use vstd::prelude::*;

verus! {

/// Something that happened during a play session.
///
/// A lesson's score is a floating-point number; the library carries it as the
/// bit pattern of that `f64` (`f64::to_bits`), since none of its rules read it.
#[derive(Debug, Clone)]
pub enum SessionEvent {
    BuildAttempt { structure: String, success: bool },
    LessonComplete { topic: String, score_bits: u64 },
    QuestComplete { quest: String },
    AgentInteraction { agent: String, action: String },
    WorldSave { message: String },
    Collaborate { with: Vec<String> },
    PetAction { pet: String, action: String },
}

/// The category name of an event: the name of its variant.
pub open spec fn kind_name(e: SessionEvent) -> Seq<char> {
    match e {
        SessionEvent::BuildAttempt { .. } => "BuildAttempt"@,
        SessionEvent::LessonComplete { .. } => "LessonComplete"@,
        SessionEvent::QuestComplete { .. } => "QuestComplete"@,
        SessionEvent::AgentInteraction { .. } => "AgentInteraction"@,
        SessionEvent::WorldSave { .. } => "WorldSave"@,
        SessionEvent::Collaborate { .. } => "Collaborate"@,
        SessionEvent::PetAction { .. } => "PetAction"@,
    }
}

/// The position of an event's kind in the order in which the kinds are
/// declared.
pub open spec fn kind_index(e: SessionEvent) -> nat {
    match e {
        SessionEvent::BuildAttempt { .. } => 0,
        SessionEvent::LessonComplete { .. } => 1,
        SessionEvent::QuestComplete { .. } => 2,
        SessionEvent::AgentInteraction { .. } => 3,
        SessionEvent::WorldSave { .. } => 4,
        SessionEvent::Collaborate { .. } => 5,
        SessionEvent::PetAction { .. } => 6,
    }
}

/// The name of the kind at position `i`.
pub open spec fn kind_label(i: nat) -> Seq<char> {
    if i == 0 { "BuildAttempt"@ }
    else if i == 1 { "LessonComplete"@ }
    else if i == 2 { "QuestComplete"@ }
    else if i == 3 { "AgentInteraction"@ }
    else if i == 4 { "WorldSave"@ }
    else if i == 5 { "Collaborate"@ }
    else { "PetAction"@ }
}

/// How many of `events` have the kind named `name`.
pub open spec fn count_named(events: Seq<SessionEvent>, name: Seq<char>) -> nat
    decreases events.len(),
{
    if events.len() == 0 {
        0
    } else {
        count_named(events.drop_last(), name) + if kind_name(events.last()) == name { 1nat } else { 0nat }
    }
}

/// How many of `events` have the kind at position `i`.
pub open spec fn count_kind(events: Seq<SessionEvent>, i: nat) -> nat
    decreases events.len(),
{
    if events.len() == 0 {
        0
    } else {
        count_kind(events.drop_last(), i) + if kind_index(events.last()) == i { 1nat } else { 0nat }
    }
}

pub proof fn lemma_count_named_take(events: Seq<SessionEvent>, i: int, name: Seq<char>)
    requires
        0 <= i < events.len(),
    ensures
        count_named(events.take(i + 1), name) == count_named(events.take(i), name)
            + if kind_name(events[i]) == name { 1nat } else { 0nat },
{
    assert(events.take(i + 1).drop_last() =~= events.take(i));
}

pub proof fn lemma_count_kind_take(events: Seq<SessionEvent>, i: int, k: nat)
    requires
        0 <= i < events.len(),
    ensures
        count_kind(events.take(i + 1), k) == count_kind(events.take(i), k)
            + if kind_index(events[i]) == k { 1nat } else { 0nat },
{
    assert(events.take(i + 1).drop_last() =~= events.take(i));
}

pub proof fn lemma_count_named_bound(events: Seq<SessionEvent>, name: Seq<char>)
    ensures
        count_named(events, name) <= events.len(),
    decreases events.len(),
{
    if events.len() > 0 {
        lemma_count_named_bound(events.drop_last(), name);
    }
}

pub proof fn lemma_count_kind_bound(events: Seq<SessionEvent>, k: nat)
    ensures
        count_kind(events, k) <= events.len(),
    decreases events.len(),
{
    if events.len() > 0 {
        lemma_count_kind_bound(events.drop_last(), k);
    }
}

/// The seven kind names are pairwise distinct, and an event's name is the
/// name at its position.
pub proof fn lemma_kind_labels_distinct()
    ensures
        forall|i: nat, j: nat| i < 7 && j < 7 && i != j ==> kind_label(i) != kind_label(j),
        forall|e: SessionEvent| #[trigger] kind_name(e) == kind_label(kind_index(e)),
        forall|e: SessionEvent| #[trigger] kind_index(e) < 7,
{
    reveal_strlit("BuildAttempt");
    reveal_strlit("LessonComplete");
    reveal_strlit("QuestComplete");
    reveal_strlit("AgentInteraction");
    reveal_strlit("WorldSave");
    reveal_strlit("Collaborate");
    reveal_strlit("PetAction");
    assert forall|i: nat, j: nat| i < 7 && j < 7 && i != j implies kind_label(i) != kind_label(j) by {
        if kind_label(i).len() == kind_label(j).len() {
            assert(kind_label(i)[0] != kind_label(j)[0]);
        }
    }
}

/// An event of the kind at position `kind_index(events[j])` is counted there.
pub proof fn lemma_count_kind_positive(events: Seq<SessionEvent>, j: int)
    requires
        0 <= j < events.len(),
    ensures
        count_kind(events, kind_index(events[j])) >= 1,
    decreases events.len(),
{
    if j < events.len() - 1 {
        lemma_count_kind_positive(events.drop_last(), j);
    }
}

/// Counting by name and counting by position agree.
pub proof fn lemma_count_named_kind(events: Seq<SessionEvent>, i: nat)
    requires
        i < 7,
    ensures
        count_named(events, kind_label(i)) == count_kind(events, i),
    decreases events.len(),
{
    lemma_kind_labels_distinct();
    if events.len() > 0 {
        lemma_count_named_kind(events.drop_last(), i);
        let e = events.last();
        assert(kind_name(e) == kind_label(kind_index(e)));
    }
}

/// The label of the kind at position `i`.
pub fn kind_label_str(i: usize) -> (r: &'static str)
    requires
        i < 7,
    ensures
        r@ == kind_label(i as nat),
{
    if i == 0 { "BuildAttempt" }
    else if i == 1 { "LessonComplete" }
    else if i == 2 { "QuestComplete" }
    else if i == 3 { "AgentInteraction" }
    else if i == 4 { "WorldSave" }
    else if i == 5 { "Collaborate" }
    else { "PetAction" }
}

impl SessionEvent {
    /// The position of this event's kind (see `kind_index`).
    pub fn kind_position(&self) -> (i: usize)
        ensures
            i == kind_index(*self),
            i < 7,
    {
        match self {
            SessionEvent::BuildAttempt { .. } => 0,
            SessionEvent::LessonComplete { .. } => 1,
            SessionEvent::QuestComplete { .. } => 2,
            SessionEvent::AgentInteraction { .. } => 3,
            SessionEvent::WorldSave { .. } => 4,
            SessionEvent::Collaborate { .. } => 5,
            SessionEvent::PetAction { .. } => 6,
        }
    }

    /// Return a human-readable discriminant name for categorisation.
    pub fn kind(&self) -> (r: &'static str)
        ensures
            r@ == kind_name(*self),
    {
        match self {
            SessionEvent::BuildAttempt { .. } => "BuildAttempt",
            SessionEvent::LessonComplete { .. } => "LessonComplete",
            SessionEvent::QuestComplete { .. } => "QuestComplete",
            SessionEvent::AgentInteraction { .. } => "AgentInteraction",
            SessionEvent::WorldSave { .. } => "WorldSave",
            SessionEvent::Collaborate { .. } => "Collaborate",
            SessionEvent::PetAction { .. } => "PetAction",
        }
    }
}

/// Two events have the same kind name exactly when they are of the same
/// variant.
pub proof fn law_kind_names_distinguish_variants(a: SessionEvent, b: SessionEvent)
    ensures
        kind_name(a) == kind_name(b) <==> kind_index(a) == kind_index(b),
{
    lemma_kind_labels_distinct();
}

/// Every event has exactly one kind: the counts of the seven kinds add up to
/// the number of events, and no other name counts any event.
pub proof fn law_kinds_partition_events(events: Seq<SessionEvent>)
    ensures
        count_kind(events, 0) + count_kind(events, 1) + count_kind(events, 2) + count_kind(events, 3)
            + count_kind(events, 4) + count_kind(events, 5) + count_kind(events, 6) == events.len(),
        forall|name: Seq<char>| count_named(events, name) > 0
            ==> exists|i: nat| i < 7 && #[trigger] kind_label(i) == name,
    decreases events.len(),
{
    lemma_kind_labels_distinct();
    if events.len() > 0 {
        law_kinds_partition_events(events.drop_last());
        let e = events.last();
        assert(kind_name(e) == kind_label(kind_index(e)));
        assert forall|name: Seq<char>| count_named(events, name) > 0
            implies exists|i: nat| i < 7 && #[trigger] kind_label(i) == name by {
            if count_named(events.drop_last(), name) == 0 {
                assert(kind_label(kind_index(e)) == name);
            }
        }
    }
}

} // verus!
