//! What the work on the containers comes to when the engine does all that
//! it is asked: the work ends; applying leaves no container that still has
//! to be applied, and removing leaves no container at all.

use crate::reconcile::{
    all_clean, apply_step, close_work, remove_step, work_step, ActionView, Cursor, EventView,
    PathsView, Purpose, StepView,
};
use crate::state::DaemonStateView;
use vstd::prelude::*;

verus! {

/// What an engine that does as it is asked reports of an action. `fresh`
/// is the id that it gives to a container that it creates.
pub open spec fn answer(action: ActionView, fresh: Seq<char>) -> EventView {
    match action {
        ActionView::Publish(_) => EventView::Published,
        ActionView::Stop { .. } => EventView::Stopped,
        ActionView::Delete { .. } => EventView::Deleted,
        ActionView::Pull { .. } => EventView::Pulled,
        ActionView::Create { .. } => EventView::Created(fresh),
        ActionView::Start { id } => EventView::Started(id),
        ActionView::Done => EventView::Begin,
    }
}

/// The state in which the work ends when every action succeeds, and
/// whether it has ended within `fuel` actions. `ids` names the ids that the
/// engine gives to the containers it creates, `n` counts the actions so
/// far.
pub open spec fn work_run(
    purpose: Purpose,
    s: DaemonStateView,
    cursor: Cursor,
    event: EventView,
    paths: PathsView,
    ids: spec_fn(nat) -> Seq<char>,
    n: nat,
    fuel: nat,
) -> (DaemonStateView, bool)
    decreases fuel,
{
    let step = work_step(purpose, s, cursor, event, paths);
    if step.2 is Done {
        (step.0, true)
    } else if fuel == 0 {
        (step.0, false)
    } else {
        work_run(
            purpose,
            step.0,
            step.1,
            answer(step.2, ids(n)),
            paths,
            ids,
            n + 1,
            (fuel - 1) as nat,
        )
    }
}

/// How many actions the work on one container can still take after
/// `event`.
pub open spec fn actions_left(event: EventView) -> nat {
    match event {
        EventView::Begin | EventView::Published => 6,
        EventView::Stopped => 5,
        EventView::Deleted => 4,
        EventView::Pulled => 3,
        EventView::Created(_) => 2,
        EventView::Started(_) => 1,
    }
}

/// A bound on the actions that the work can still take.
pub open spec fn actions_bound(s: DaemonStateView, cursor: Cursor, event: EventView) -> nat {
    match cursor {
        Cursor::Start => 6 * s.named_containers.len() + 15,
        Cursor::Named(i) => {
            let behind = if i < s.named_containers.len() {
                (s.named_containers.len() - i) as nat
            } else {
                0
            };
            6 * behind + actions_left(event) + 8
        },
        Cursor::Default => actions_left(event) + 2,
        Cursor::Closing => 1,
        Cursor::Finished => 0,
    }
}

/// The containers that the work has left behind are all unchanged.
pub open spec fn behind_is_clean(s: DaemonStateView, cursor: Cursor) -> bool {
    &&& s.named_containers.len() <= usize::MAX
    &&& match cursor {
        Cursor::Start => true,
        Cursor::Named(i) => forall|j: int|
            0 <= j < i && j < s.named_containers.len() ==> !(
            #[trigger] s.named_containers[j]).1.dirty,
        Cursor::Default => forall|j: int|
            0 <= j < s.named_containers.len() ==> !(#[trigger] s.named_containers[j]).1.dirty,
        Cursor::Closing | Cursor::Finished => all_clean(s),
    }
}

/// One step of applying keeps the containers behind the cursor unchanged,
/// brings the work nearer to its end, and ends it only when every
/// container is unchanged.
pub proof fn lemma_apply_step_advances(
    s: DaemonStateView,
    cursor: Cursor,
    event: EventView,
    paths: PathsView,
    fresh: Seq<char>,
)
    requires
        behind_is_clean(s, cursor),
    ensures
        ({
            let step = work_step(Purpose::Apply, s, cursor, event, paths);
            &&& behind_is_clean(step.0, step.1)
            &&& step.2 is Done ==> all_clean(step.0)
            &&& !(step.2 is Done) ==> actions_bound(step.0, step.1, answer(step.2, fresh))
                < actions_bound(s, cursor, event)
            &&& actions_bound(step.0, step.1, answer(step.2, fresh)) <= actions_bound(
                s,
                cursor,
                event,
            )
        }),
    decreases crate::reconcile::slots_left(s, cursor),
{
    match cursor {
        Cursor::Named(i) => {
            if i >= s.named_containers.len() {
                lemma_apply_step_advances(s, Cursor::Default, EventView::Begin, paths, fresh);
            } else {
                let entry = s.named_containers[i as int];
                let (c, step) = apply_step(entry.1, event, paths);
                let recorded = DaemonStateView {
                    named_containers: s.named_containers.update(i as int, (entry.0, c)),
                    ..s
                };
                match step {
                    StepView::Act(_) => {},
                    StepView::Keep => {
                        assert(!c.dirty);
                        assert(behind_is_clean(recorded, Cursor::Named((i + 1) as usize)));
                        lemma_apply_step_advances(
                            recorded,
                            Cursor::Named((i + 1) as usize),
                            EventView::Begin,
                            paths,
                            fresh,
                        );
                    },
                    StepView::Drop => {
                        let dropped = DaemonStateView {
                            named_containers: s.named_containers.remove(i as int),
                            ..s
                        };
                        assert(behind_is_clean(dropped, cursor));
                        lemma_apply_step_advances(dropped, cursor, EventView::Begin, paths, fresh);
                    },
                }
            }
        },
        Cursor::Default => {
            match s.default_container {
                Some(current) => {
                    let (c, step) = apply_step(current, event, paths);
                    match step {
                        StepView::Keep => {
                            assert(!c.dirty);
                        },
                        _ => {},
                    }
                },
                None => {},
            }
        },
        _ => {},
    }
}

/// Applying ends within the bound, and when it has ended no container of
/// the state is left changed.
pub proof fn lemma_apply_run_settles(
    s: DaemonStateView,
    cursor: Cursor,
    event: EventView,
    paths: PathsView,
    ids: spec_fn(nat) -> Seq<char>,
    n: nat,
    fuel: nat,
)
    requires
        behind_is_clean(s, cursor),
        fuel >= actions_bound(s, cursor, event),
    ensures
        work_run(Purpose::Apply, s, cursor, event, paths, ids, n, fuel).1,
        all_clean(work_run(Purpose::Apply, s, cursor, event, paths, ids, n, fuel).0),
    decreases fuel,
{
    lemma_apply_step_advances(s, cursor, event, paths, ids(n));
    let step = work_step(Purpose::Apply, s, cursor, event, paths);
    if !(step.2 is Done) {
        lemma_apply_run_settles(
            step.0,
            step.1,
            answer(step.2, ids(n)),
            paths,
            ids,
            n + 1,
            (fuel - 1) as nat,
        );
    }
}

/// Applying twice in a row does nothing the second time. The first time,
/// when the engine does all that it is asked, the work ends and leaves
/// every container unchanged; and to apply such a state asks nothing of the
/// engine and leaves the containers as they are.
pub proof fn lemma_apply_twice(
    s: DaemonStateView,
    paths: PathsView,
    ids: spec_fn(nat) -> Seq<char>,
)
    requires
        s.named_containers.len() <= usize::MAX,
    ensures
        ({
            let fuel = 6 * s.named_containers.len() + 15;
            let first = work_run(
        Purpose::Apply,
        s,
        Cursor::Start,
        EventView::Begin,
        paths,
        ids,
        0,
        fuel,
    );
            let again = work_step(
                Purpose::Apply,
                first.0,
                Cursor::Named(0),
                EventView::Published,
                paths,
            );
            &&& first.1
            &&& all_clean(first.0)
            &&& again == close_work(Purpose::Apply, first.0)
            &&& again.0.named_containers == first.0.named_containers
            &&& again.0.default_container == first.0.default_container
        }),
{
    let fuel = 6 * s.named_containers.len() + 15;
    lemma_apply_run_settles(s, Cursor::Start, EventView::Begin, paths, ids, 0, fuel);
    let first = work_run(
        Purpose::Apply,
        s,
        Cursor::Start,
        EventView::Begin,
        paths,
        ids,
        0,
        fuel,
    );
    lemma_run_keeps_length(s, Cursor::Start, EventView::Begin, paths, ids, 0, fuel);
    crate::reconcile::lemma_apply_of_clean_state(first.0, 0, EventView::Published, paths);
}

/// A run of applying never makes the named containers more.
pub proof fn lemma_run_keeps_length(
    s: DaemonStateView,
    cursor: Cursor,
    event: EventView,
    paths: PathsView,
    ids: spec_fn(nat) -> Seq<char>,
    n: nat,
    fuel: nat,
)
    ensures
        work_run(Purpose::Apply, s, cursor, event, paths, ids, n, fuel).0.named_containers.len()
            <= s.named_containers.len(),
    decreases fuel,
{
    lemma_step_keeps_length(s, cursor, event, paths);
    let step = work_step(Purpose::Apply, s, cursor, event, paths);
    if !(step.2 is Done) && fuel > 0 {
        lemma_run_keeps_length(
            step.0,
            step.1,
            answer(step.2, ids(n)),
            paths,
            ids,
            n + 1,
            (fuel - 1) as nat,
        );
    }
}

/// A step of applying never makes the named containers more.
pub proof fn lemma_step_keeps_length(
    s: DaemonStateView,
    cursor: Cursor,
    event: EventView,
    paths: PathsView,
)
    ensures
        work_step(Purpose::Apply, s, cursor, event, paths).0.named_containers.len()
            <= s.named_containers.len(),
    decreases crate::reconcile::slots_left(s, cursor),
{
    match cursor {
        Cursor::Named(i) => {
            if i >= s.named_containers.len() {
                lemma_step_keeps_length(s, Cursor::Default, EventView::Begin, paths);
            } else {
                let entry = s.named_containers[i as int];
                let (c, step) = apply_step(entry.1, event, paths);
                let recorded = DaemonStateView {
                    named_containers: s.named_containers.update(i as int, (entry.0, c)),
                    ..s
                };
                match step {
                    StepView::Act(_) => {},
                    StepView::Keep => {
                        if i < usize::MAX {
                            lemma_step_keeps_length(
                                recorded,
                                Cursor::Named((i + 1) as usize),
                                EventView::Begin,
                                paths,
                            );
                        }
                    },
                    StepView::Drop => {
                        let dropped = DaemonStateView {
                            named_containers: s.named_containers.remove(i as int),
                            ..s
                        };
                        lemma_step_keeps_length(dropped, cursor, EventView::Begin, paths);
                    },
                }
            }
        },
        _ => {},
    }
}

/// Every slot is empty.
pub open spec fn no_containers(s: DaemonStateView) -> bool {
    s.named_containers.len() == 0 && s.default_container is None
}

/// The slots that removing has gone past are empty.
pub open spec fn behind_is_empty(s: DaemonStateView, cursor: Cursor) -> bool {
    &&& s.named_containers.len() <= usize::MAX
    &&& match cursor {
        Cursor::Start | Cursor::Named(_) => true,
        Cursor::Default => s.named_containers.len() == 0,
        Cursor::Closing | Cursor::Finished => no_containers(s),
    }
}

/// One step of removing brings the work nearer to its end, and ends it
/// only when every slot is empty.
pub proof fn lemma_remove_step_advances(
    s: DaemonStateView,
    cursor: Cursor,
    event: EventView,
    paths: PathsView,
    fresh: Seq<char>,
)
    requires
        behind_is_empty(s, cursor),
    ensures
        ({
            let step = work_step(Purpose::RemoveAll, s, cursor, event, paths);
            &&& behind_is_empty(step.0, step.1)
            &&& step.2 is Done ==> no_containers(step.0)
            &&& !(step.2 is Done) ==> actions_bound(step.0, step.1, answer(step.2, fresh))
                < actions_bound(s, cursor, event)
            &&& actions_bound(step.0, step.1, answer(step.2, fresh)) <= actions_bound(
                s,
                cursor,
                event,
            )
        }),
    decreases crate::reconcile::slots_left(s, cursor),
{
    match cursor {
        Cursor::Named(i) => {
            if i >= s.named_containers.len() {
                let cleared = DaemonStateView { named_containers: Seq::empty(), ..s };
                lemma_remove_step_advances(
                    cleared,
                    Cursor::Default,
                    EventView::Begin,
                    paths,
                    fresh,
                );
            } else {
                let entry = s.named_containers[i as int];
                let (c, step) = remove_step(entry.1, event);
                let recorded = DaemonStateView {
                    named_containers: s.named_containers.update(i as int, (entry.0, c)),
                    ..s
                };
                match step {
                    StepView::Keep => {
                        lemma_remove_step_advances(
                            recorded,
                            Cursor::Named((i + 1) as usize),
                            EventView::Begin,
                            paths,
                            fresh,
                        );
                    },
                    _ => {},
                }
            }
        },
        _ => {},
    }
}

/// Removing ends within the bound, and when it has ended every slot is
/// empty: each container that ran was stopped and deleted on the way.
pub proof fn lemma_remove_run_empties(
    s: DaemonStateView,
    cursor: Cursor,
    event: EventView,
    paths: PathsView,
    ids: spec_fn(nat) -> Seq<char>,
    n: nat,
    fuel: nat,
)
    requires
        behind_is_empty(s, cursor),
        fuel >= actions_bound(s, cursor, event),
    ensures
        work_run(Purpose::RemoveAll, s, cursor, event, paths, ids, n, fuel).1,
        no_containers(work_run(Purpose::RemoveAll, s, cursor, event, paths, ids, n, fuel).0),
    decreases fuel,
{
    lemma_remove_step_advances(s, cursor, event, paths, ids(n));
    let step = work_step(Purpose::RemoveAll, s, cursor, event, paths);
    if !(step.2 is Done) {
        lemma_remove_run_empties(
            step.0,
            step.1,
            answer(step.2, ids(n)),
            paths,
            ids,
            n + 1,
            (fuel - 1) as nat,
        );
    }
}

} // verus!
