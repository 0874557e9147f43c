//! Script statuses and their consolidation into one unit status.

use crate::strmap::StrMap;
use vstd::prelude::*;

verus! {

/// The state that a script reports. The variants are listed in ascending
/// precedence: when several scripts report, the highest one wins.
#[derive(Clone, Copy, Debug, PartialEq, Eq, Structural)]
pub enum ScriptState {
    Maintenance,
    Active,
    Blocked,
    Waiting,
}

impl ScriptState {
    /// The precedence of a state: `Maintenance < Active < Blocked < Waiting`.
    pub open spec fn rank(self) -> nat {
        match self {
            ScriptState::Maintenance => 0,
            ScriptState::Active => 1,
            ScriptState::Blocked => 2,
            ScriptState::Waiting => 3,
        }
    }

    /// The precedence of a state as a machine integer.
    pub fn precedence(self) -> (r: u8)
        ensures
            r as nat == self.rank(),
    {
        match self {
            ScriptState::Maintenance => 0,
            ScriptState::Active => 1,
            ScriptState::Blocked => 2,
            ScriptState::Waiting => 3,
        }
    }
}

impl Default for ScriptState {
    /// The state of lowest precedence.
    fn default() -> (r: Self)
        ensures
            r == ScriptState::Maintenance,
    {
        ScriptState::Maintenance
    }
}

/// What a script reports of itself: a state and, if it likes, a message.
#[derive(Debug)]
pub struct ScriptStatus {
    pub state: ScriptState,
    pub message: Option<String>,
}

/// The model of a `ScriptStatus`.
pub struct ScriptStatusView {
    pub state: ScriptState,
    pub message: Option<Seq<char>>,
}

impl DeepView for ScriptStatus {
    type V = ScriptStatusView;

    open spec fn deep_view(&self) -> ScriptStatusView {
        ScriptStatusView { state: self.state, message: self.message.deep_view() }
    }
}

impl View for ScriptStatus {
    type V = ScriptStatusView;

    open spec fn view(&self) -> ScriptStatusView {
        self.deep_view()
    }
}

impl Clone for ScriptStatus {
    fn clone(&self) -> (r: Self)
        ensures
            r@ == self@,
    {
        let message = match &self.message {
            Some(m) => Some(m.clone()),
            None => None,
        };
        ScriptStatus { state: self.state, message }
    }
}

/// The text that stands between two messages of a consolidated status.
pub open spec fn separator() -> Seq<char> {
    seq![',', ' ']
}

/// The statuses of the entries, in their order.
pub open spec fn statuses_of(entries: Seq<(Seq<char>, ScriptStatusView)>) -> Seq<
    ScriptStatusView,
> {
    Seq::new(entries.len(), |i: int| entries[i].1)
}

/// The state of highest precedence among `s`, and `Maintenance` where `s` is
/// empty.
pub open spec fn highest_state(s: Seq<ScriptStatusView>) -> ScriptState
    decreases s.len(),
{
    if s.len() == 0 {
        ScriptState::Maintenance
    } else {
        let rest = highest_state(s.drop_last());
        if s.last().state.rank() > rest.rank() {
            s.last().state
        } else {
            rest
        }
    }
}

/// The messages of `s`, in order, with `separator` between each two; `None`
/// where no status has a message.
pub open spec fn joined_messages(s: Seq<ScriptStatusView>) -> Option<Seq<char>>
    decreases s.len(),
{
    if s.len() == 0 {
        None
    } else {
        let rest = joined_messages(s.drop_last());
        match s.last().message {
            Some(m) => match rest {
                Some(r) => Some(r + separator() + m),
                None => Some(m),
            },
            None => rest,
        }
    }
}

/// The consolidated status of `s`.
pub open spec fn consolidated(s: Seq<ScriptStatusView>) -> ScriptStatusView {
    ScriptStatusView { state: highest_state(s), message: joined_messages(s) }
}

/// The consolidated state is the maximum of the states: no status has a
/// higher precedence, and where there is a status at all, one of them has
/// exactly this state.
pub proof fn lemma_highest_state_is_max(s: Seq<ScriptStatusView>)
    ensures
        forall|i: int| 0 <= i < s.len() ==> (#[trigger] s[i]).state.rank() <= highest_state(s).rank(),
        s.len() > 0 ==> exists|i: int| 0 <= i < s.len() && (#[trigger] s[i]).state == highest_state(s),
        s.len() == 0 ==> highest_state(s) == ScriptState::Maintenance,
    decreases s.len(),
{
    if s.len() > 0 {
        let t = s.drop_last();
        lemma_highest_state_is_max(t);
        assert forall|i: int| 0 <= i < s.len() implies (#[trigger] s[i]).state.rank()
            <= highest_state(s).rank() by {
            if i < t.len() {
                assert(s[i] == t[i]);
            }
        }
        if s.last().state.rank() > highest_state(t).rank() {
            assert(s[s.len() - 1].state == highest_state(s));
        } else if t.len() > 0 {
            let i = choose|i: int| 0 <= i < t.len() && (#[trigger] t[i]).state == highest_state(t);
            assert(s[i] == t[i]);
        } else {
            assert(s[0].state.rank() == 0);
            assert(s[0].state == highest_state(s));
        }
    }
}

/// No message in, no message out; and a single message comes out as it is.
pub proof fn lemma_joined_messages_none(s: Seq<ScriptStatusView>)
    ensures
        joined_messages(s) is None <==> forall|i: int|
            0 <= i < s.len() ==> (#[trigger] s[i]).message is None,
    decreases s.len(),
{
    if s.len() > 0 {
        let t = s.drop_last();
        lemma_joined_messages_none(t);
        if joined_messages(s) is None {
            assert forall|i: int| 0 <= i < s.len() implies (#[trigger] s[i]).message is None by {
                if i < t.len() {
                    assert(s[i] == t[i]);
                }
            }
        } else {
            if s.last().message is None {
                let i = choose|i: int| 0 <= i < t.len() && !((#[trigger] t[i]).message is None);
                assert(s[i] == t[i]);
            } else {
                assert(!(s[s.len() - 1].message is None));
            }
        }
    }
}

/// Consolidates the statuses of all scripts into the status of the unit:
/// the state of highest precedence, and the messages joined in the order in
/// which the map is walked.
pub fn consolidate(statuses: &StrMap<ScriptStatus>) -> (r: ScriptStatus)
    ensures
        r@ == consolidated(statuses_of(statuses.entries())),
{
    let ghost all = statuses_of(statuses.entries());
    let mut state = ScriptState::Maintenance;
    let mut message: Option<String> = None;
    let n: usize = statuses.len();
    let mut i: usize = 0;
    while i < n
        invariant
            n == statuses.entries().len(),
            all == statuses_of(statuses.entries()),
            i <= n,
            state == highest_state(all.take(i as int)),
            message.deep_view() == joined_messages(all.take(i as int)),
        decreases n - i,
    {
        let status = statuses.value_at(i);
        proof {
            let next = all.take(i as int + 1);
            assert(next.drop_last() =~= all.take(i as int));
            assert(next.last() == status.deep_view());
            reveal_strlit(", ");
            assert(", "@ =~= separator());
        }
        if status.state.precedence() > state.precedence() {
            state = status.state;
        }
        if let Some(m) = &status.message {
            message = match message {
                Some(current) => Some(current.concat(", ").concat(m.as_str())),
                None => Some(m.clone()),
            };
        }
        i += 1;
    }
    proof {
        assert(all.take(n as int) =~= all);
    }
    ScriptStatus { state, message }
}

} // verus!
