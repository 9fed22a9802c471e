use vstd::prelude::*;

verus! {

/// One replay step: type one character, or delete one.
#[derive(Debug, Clone, Copy, PartialEq, Eq, Structural)]
pub enum Action {
    Char(char),
    Backspace,
}

/// One authored event of a script's track, in file order.
#[derive(Debug, Clone)]
pub enum ScriptEvent {
    /// Text typed at once; replayed one character per step.
    Insert { text: String },
    /// `n` characters deleted; replayed one backspace per step.
    Delete { n: u32 },
    /// A named checkpoint at the current action count.
    Marker { name: String },
}

/// The flattened script: the actions to replay and the named markers.
#[derive(Debug, Clone)]
pub struct Sequence {
    pub actions: Vec<Action>,
    pub markers: Vec<(usize, String)>,
}

pub open spec fn char_action(c: char) -> Action {
    Action::Char(c)
}

/// One `Char` action per character, in order.
pub open spec fn chars_typed(text: Seq<char>) -> Seq<Action> {
    Seq::new(text.len(), |i: int| char_action(text[i]))
}

/// `n` backspace actions.
pub open spec fn erased(n: nat) -> Seq<Action> {
    Seq::new(n, |i: int| Action::Backspace)
}

/// The actions that one event expands to.
pub open spec fn event_actions(e: ScriptEvent) -> Seq<Action> {
    match e {
        ScriptEvent::Insert { text } => chars_typed(text@),
        ScriptEvent::Delete { n } => erased(n as nat),
        ScriptEvent::Marker { .. } => Seq::empty(),
    }
}

/// The actions of a whole track: each event's actions, in order.
pub open spec fn flatten(events: Seq<ScriptEvent>) -> Seq<Action>
    decreases events.len(),
{
    if events.len() == 0 {
        Seq::empty()
    } else {
        flatten(events.drop_last()) + event_actions(events.last())
    }
}

/// The markers of a track, each with the action count at which it stands.
pub open spec fn markers_of(events: Seq<ScriptEvent>) -> Seq<(nat, Seq<char>)>
    decreases events.len(),
{
    if events.len() == 0 {
        Seq::empty()
    } else {
        let before = markers_of(events.drop_last());
        match events.last() {
            ScriptEvent::Marker { name } => before.push((flatten(events.drop_last()).len(), name@)),
            _ => before,
        }
    }
}

/// How many characters the track inserts.
pub open spec fn inserted_count(events: Seq<ScriptEvent>) -> nat
    decreases events.len(),
{
    if events.len() == 0 {
        0
    } else {
        inserted_count(events.drop_last()) + match events.last() {
            ScriptEvent::Insert { text } => text@.len(),
            _ => 0,
        }
    }
}

/// How many characters the track deletes.
pub open spec fn deleted_count(events: Seq<ScriptEvent>) -> nat
    decreases events.len(),
{
    if events.len() == 0 {
        0
    } else {
        deleted_count(events.drop_last()) + match events.last() {
            ScriptEvent::Delete { n } => n as nat,
            _ => 0,
        }
    }
}

/// The length of a flattened track is what it inserts plus what it deletes.
pub proof fn lemma_flatten_len(events: Seq<ScriptEvent>)
    ensures
        flatten(events).len() == inserted_count(events) + deleted_count(events),
    decreases events.len(),
{
    if events.len() > 0 {
        lemma_flatten_len(events.drop_last());
    }
}

/// Markers stand in track order, and none lies past the end of the actions.
pub proof fn lemma_markers_ordered(events: Seq<ScriptEvent>)
    ensures
        forall|i: int|
            0 <= i < markers_of(events).len() ==> #[trigger] markers_of(events)[i].0 <= flatten(
                events,
            ).len(),
        forall|i: int, j: int|
            0 <= i <= j < markers_of(events).len() ==> #[trigger] markers_of(events)[i].0
                <= #[trigger] markers_of(events)[j].0,
    decreases events.len(),
{
    if events.len() > 0 {
        let prev = events.drop_last();
        lemma_markers_ordered(prev);
        let before = markers_of(prev);
        let bound = flatten(prev).len();
        assert(flatten(events).len() >= bound);
        assert forall|i: int| 0 <= i < before.len() implies #[trigger] before[i].0 <= bound by {}
        match events.last() {
            ScriptEvent::Marker { name } => {
                assert(markers_of(events) == before.push((bound, name@)));
            },
            _ => {
                assert(markers_of(events) == before);
            },
        }
    }
}

impl Sequence {
    /// The markers as plain values.
    pub open spec fn marker_view(&self) -> Seq<(nat, Seq<char>)> {
        self.markers@.map_values(|m: (usize, String)| (m.0 as nat, m.1@))
    }

    /// Flattens a track: an insert gives one `Char` per character, a delete
    /// of `n` gives `n` backspaces, a marker records the action count so far.
    pub fn from_events(events: &Vec<ScriptEvent>) -> (r: Sequence)
        ensures
            r.actions@ == flatten(events@),
            r.marker_view() == markers_of(events@),
            r.actions.len() == inserted_count(events@) + deleted_count(events@),
            forall|i: int| 0 <= i < r.markers.len() ==> #[trigger] r.markers[i].0 <= r.actions.len(),
            forall|i: int, j: int|
                0 <= i <= j < r.markers.len() ==> #[trigger] r.markers[i].0 <= #[trigger] r.markers[j].0,
    {
        let mut actions: Vec<Action> = Vec::new();
        let mut markers: Vec<(usize, String)> = Vec::new();
        let mut k: usize = 0;
        while k < events.len()
            invariant
                k <= events.len(),
                actions@ == flatten(events@.take(k as int)),
                markers@.map_values(|m: (usize, String)| (m.0 as nat, m.1@))
                    == markers_of(events@.take(k as int)),
            decreases events.len() - k,
        {
            let ghost done = events@.take(k as int);
            assert(events@.take(k + 1).drop_last() =~= done);
            match &events[k] {
                ScriptEvent::Insert { text } => {
                    let ghost start = actions@;
                    let s = text.as_str();
                    let len = s.unicode_len();
                    let mut j: usize = 0;
                    assert(start + chars_typed(s@.take(0)) =~= start);
                    while j < len
                        invariant
                            j <= len,
                            len == s@.len(),
                            s@ == text@,
                            actions@ == start + chars_typed(s@.take(j as int)),
                        decreases len - j,
                    {
                        let ch = s.get_char(j);
                        actions.push(Action::Char(ch));
                        assert(s@.take(j + 1) =~= s@.take(j as int).push(ch));
                        assert(chars_typed(s@.take(j + 1)) =~= chars_typed(s@.take(j as int)).push(Action::Char(ch)));
                        j = j + 1;
                    }
                    assert(s@.take(len as int) =~= text@);
                },
                ScriptEvent::Delete { n } => {
                    let ghost start = actions@;
                    assert(start + erased(0) =~= start);
                    for i in 0..*n
                        invariant
                            actions@ == start + erased(i as nat),
                    {
                        actions.push(Action::Backspace);
                        assert(actions@ =~= start + erased((i + 1) as nat));
                    }
                },
                ScriptEvent::Marker { name } => {
                    markers.push((actions.len(), name.clone()));
                },
            }
            assert(events@.take(k + 1).last() == events@[k as int]);
            k = k + 1;
        }
        assert(events@.take(events.len() as int) == events@);
        proof {
            lemma_flatten_len(events@);
            lemma_markers_ordered(events@);
            assert forall|i: int| 0 <= i < markers.len() implies markers[i].0 == markers_of(events@)[i].0 by {
                assert(markers@.map_values(|m: (usize, String)| (m.0 as nat, m.1@))[i] == markers_of(events@)[i]);
            }
        }
        Sequence { actions, markers }
    }
}

} // verus!
