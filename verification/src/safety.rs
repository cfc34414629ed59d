//! What holds of every run of the coordinator.

use crate::coordinator::{
    block_failure, bootstrap_objection, initial, inv, signing_objection, step, ActionModel,
    BootstrapModel, CoordinatorModel, EventModel, PhaseModel, ValidationError,
};
use crate::session::CeremonyKind;
use vstd::prelude::*;

verus! {

/// The coordinator after a sequence of events, from the beginning.
pub open spec fn run(events: Seq<EventModel>) -> CoordinatorModel
    decreases events.len(),
{
    if events.len() == 0 {
        initial()
    } else {
        step(run(events.drop_last()), events.last()).0
    }
}

/// The coordinator after the first `k` events.
pub open spec fn at(events: Seq<EventModel>, k: int) -> CoordinatorModel {
    run(events.take(k))
}

/// Every step keeps what holds at all times.
pub proof fn lemma_step_keeps_inv(c: CoordinatorModel, event: EventModel)
    requires
        inv(c),
    ensures
        inv(step(c, event).0),
{
}

/// What holds at all times holds after every sequence of events.
pub proof fn lemma_run_inv(events: Seq<EventModel>)
    ensures
        inv(run(events)),
    decreases events.len(),
{
    if events.len() > 0 {
        lemma_run_inv(events.drop_last());
        lemma_step_keeps_inv(run(events.drop_last()), events.last());
    }
}

/// `Successful` is final: no event changes the coordinator after it, and no
/// action follows but the refusal of a new request.
pub proof fn lemma_successful_is_final(c: CoordinatorModel, event: EventModel)
    requires
        inv(c),
        c.state is Successful,
    ensures
        step(c, event).0 == c,
        step(c, event).1 == ActionModel::Nothing || step(c, event).1 == ActionModel::Reject(
            ValidationError::Busy,
        ),
{
}

/// An `Error` stays as it is until a new request is accepted: events that
/// arrive late change nothing.
pub proof fn lemma_error_stays_until_restart(c: CoordinatorModel, event: EventModel)
    requires
        inv(c),
        c.state is Error,
        !(event is StartSigning),
        !(event is StartBootstrap),
    ensures
        step(c, event) == (c, ActionModel::Nothing),
{
}

/// A refused request changes nothing.
pub proof fn lemma_refusal_changes_nothing(c: CoordinatorModel, event: EventModel)
    requires
        step(c, event).1 is Reject,
    ensures
        step(c, event).0 == c,
{
}

/// While an invocation is in flight, every new request is refused as `Busy`.
pub proof fn lemma_one_invocation_at_a_time(c: CoordinatorModel, event: EventModel)
    requires
        c.state is Processing,
        event is StartSigning || event is StartBootstrap,
    ensures
        step(c, event) == (c, ActionModel::Reject(ValidationError::Busy)),
{
}

/// Roles are launched at two points only: by a key generation request that
/// nothing stands against, and by the news that the record was written while
/// that news is awaited.
pub proof fn lemma_roles_launch_points(c: CoordinatorModel, event: EventModel)
    requires
        step(c, event).1 is RunRoles,
    ensures
        (event matches EventModel::StartBootstrap(request) && bootstrap_objection(c, request)
            is None) || (event matches EventModel::ArtifactStored(Ok(_)) && c.phase is Storing),
{
}

/// Each action of a signing is asked for at one point only: the block by a
/// request that nothing stands against, the reading of the record by the
/// block that was awaited, and the writing of the record, with that block
/// queued in it, by the valid record that was awaited.
pub proof fn lemma_signing_action_points(c: CoordinatorModel, event: EventModel)
    ensures
        step(c, event).1 is BuildBlock ==> (event matches EventModel::StartSigning(request)
            && signing_objection(c, request) is None),
        step(c, event).1 is LoadArtifact ==> c.phase is Building && (event
            matches EventModel::BlockBuilt(Ok(_))),
        step(c, event).1 matches ActionModel::StoreArtifact { record, .. } ==> {
            &&& c.phase matches PhaseModel::Loading { request, block }
            &&& event matches EventModel::ArtifactLoaded(Ok(loaded))
            &&& loaded.valid()
            &&& record == loaded.with_pending(block, request.intent.subtype())
            &&& record.valid()
        },
{
}

/// A step of a signing that fails ends the invocation in `Error` and asks for
/// nothing more: no record is written after a failed block, and no role runs
/// after a record that could not be read or written.
pub proof fn lemma_failed_step_ends_invocation(c: CoordinatorModel, event: EventModel)
    requires
        (c.phase is Building && event matches EventModel::BlockBuilt(Err(_))) || (c.phase
            is Loading && event matches EventModel::ArtifactLoaded(Err(_))) || (c.phase
            is Storing && event matches EventModel::ArtifactStored(Err(_))),
    ensures
        step(c, event).0.state is Error,
        step(c, event).0.phase is Ready,
        step(c, event).1 == ActionModel::Nothing,
        event is BlockBuilt ==> step(c, event).0.state == crate::state::StateModel::Error(
            block_failure(),
        ),
        event matches EventModel::ArtifactLoaded(Err(e)) ==> step(c, event).0.state
            == crate::state::StateModel::Error(e.text()),
        event matches EventModel::ArtifactStored(Err(e)) ==> step(c, event).0.state
            == crate::state::StateModel::Error(e.text()),
{
}

/// A key generation whose threshold is above the number of participants is
/// refused: nothing changes and no role is launched.
pub proof fn lemma_bad_threshold_is_refused(c: CoordinatorModel, request: BootstrapModel)
    requires
        request.params.threshold > request.params.participants,
    ensures
        step(c, EventModel::StartBootstrap(request)).0 == c,
        step(c, EventModel::StartBootstrap(request)).1 is Reject,
        c.state.accepts_start() ==> step(c, EventModel::StartBootstrap(request)).1
            == ActionModel::Reject(ValidationError::BadThreshold),
{
}

/// The event at index `i` is a block that arrived while it was awaited.
pub open spec fn built_at(events: Seq<EventModel>, i: int) -> bool {
    &&& 0 <= i < events.len()
    &&& events[i] matches EventModel::BlockBuilt(Ok(_))
    &&& at(events, i).phase is Building
}

/// The event at index `l` is a valid record that arrived while it was awaited.
pub open spec fn loaded_at(events: Seq<EventModel>, l: int) -> bool {
    &&& 0 <= l < events.len()
    &&& events[l] matches EventModel::ArtifactLoaded(Ok(record))
    &&& record.valid()
    &&& at(events, l).phase is Loading
}

/// The event at index `j` is the news that the record was written, arrived
/// while it was awaited.
pub open spec fn stored_at(events: Seq<EventModel>, j: int) -> bool {
    &&& 0 <= j < events.len()
    &&& events[j] matches EventModel::ArtifactStored(Ok(_))
    &&& at(events, j).phase is Storing
}

/// From behind `i` up to `l` the record was awaited.
pub open spec fn loading(events: Seq<EventModel>, i: int, l: int) -> bool {
    forall|k: int| i < k <= l ==> (#[trigger] at(events, k)).phase is Loading
}

/// From behind `l` up to `j` the news of the store was awaited.
pub open spec fn storing(events: Seq<EventModel>, l: int, j: int) -> bool {
    forall|k: int| l < k <= j ==> (#[trigger] at(events, k)).phase is Storing
}

/// From behind `j` to before `t` the roles ran.
pub open spec fn roles_ran(events: Seq<EventModel>, j: int, t: int) -> bool {
    forall|k: int| j < k < t ==> (#[trigger] at(events, k)).phase is Running
}

/// From `t` on the state was `Successful`.
pub open spec fn successful_since(events: Seq<EventModel>, t: int) -> bool {
    forall|k: int| t <= k <= events.len() ==> (#[trigger] at(events, k)).state is Successful
}

/// The steps of a signing up to the launch of its roles: the block arrived
/// at `i`, the record was read at `l` and written at `j`, each while it was
/// awaited, and nothing else came between.
pub open spec fn signing_steps(events: Seq<EventModel>, i: int, l: int, j: int) -> bool {
    &&& 0 <= i < l < j < events.len()
    &&& built_at(events, i)
    &&& loaded_at(events, l)
    &&& stored_at(events, j)
    &&& loading(events, i, l)
    &&& storing(events, l, j)
}

/// The path of a signing to its success: its steps at `i`, `l` and `j`, then
/// the roles alone until the success at `t`.
pub open spec fn signing_path(events: Seq<EventModel>, i: int, l: int, j: int, t: int) -> bool {
    &&& signing_steps(events, i, l, j)
    &&& j < t <= events.len()
    &&& roles_ran(events, j, t)
    &&& successful_since(events, t)
}

/// How far a signing in flight has come, by the step it waits in.
spec fn progress(events: Seq<EventModel>, i: int, l: int, j: int, t: int) -> bool {
    let c = run(events);
    let n = events.len() as int;
    match c.phase {
        PhaseModel::Loading { .. } => {
            &&& built_at(events, i)
            &&& loading(events, i, n)
        },
        PhaseModel::Storing { .. } => {
            &&& i < l < n
            &&& built_at(events, i)
            &&& loaded_at(events, l)
            &&& loading(events, i, l)
            &&& storing(events, l, n)
        },
        PhaseModel::Running { kind, .. } => kind == CeremonyKind::Signing ==> {
            &&& signing_steps(events, i, l, j)
            &&& roles_ran(events, j, n + 1)
        },
        PhaseModel::Ready => c.state is Successful && c.kind == Some(CeremonyKind::Signing)
            ==> signing_path(events, i, l, j, t),
        PhaseModel::Building { .. } => true,
    }
}

/// The first `k` events of a sequence are the first `k` of it without its last.
proof fn lemma_at_earlier(events: Seq<EventModel>, k: int)
    requires
        0 <= k < events.len(),
    ensures
        at(events, k) == at(events.drop_last(), k),
{
    assert(events.take(k) =~= events.drop_last().take(k));
}

/// All events of a sequence lead to where it ends.
proof fn lemma_at_end(events: Seq<EventModel>)
    ensures
        at(events, events.len() as int) == run(events),
{
    assert(events.take(events.len() as int) =~= events);
}

/// What was found in a sequence is found in it with one more event behind.
proof fn lemma_found_stays(events: Seq<EventModel>, i: int, l: int, j: int)
    requires
        events.len() > 0,
        0 <= i,
        0 <= l,
        0 <= j,
    ensures
        built_at(events.drop_last(), i) ==> built_at(events, i),
        loaded_at(events.drop_last(), l) ==> loaded_at(events, l),
        stored_at(events.drop_last(), j) ==> stored_at(events, j),
        forall|b: int|
            b < events.len() && loading(events.drop_last(), i, b) ==> #[trigger] loading(
                events,
                i,
                b,
            ),
        forall|b: int|
            b < events.len() && storing(events.drop_last(), l, b) ==> #[trigger] storing(
                events,
                l,
                b,
            ),
        forall|t: int|
            t <= events.len() && roles_ran(events.drop_last(), j, t) ==> #[trigger] roles_ran(
                events,
                j,
                t,
            ),
{
    let prev = events.drop_last();
    if built_at(prev, i) {
        lemma_at_earlier(events, i);
    }
    if loaded_at(prev, l) {
        lemma_at_earlier(events, l);
    }
    if stored_at(prev, j) {
        lemma_at_earlier(events, j);
    }
    assert forall|b: int| b < events.len() && loading(prev, i, b) implies #[trigger] loading(
        events,
        i,
        b,
    ) by {
        assert forall|k: int| i < k <= b implies (#[trigger] at(events, k)).phase is Loading by {
            lemma_at_earlier(events, k);
            assert(at(prev, k).phase is Loading);
        }
    }
    assert forall|b: int| b < events.len() && storing(prev, l, b) implies #[trigger] storing(
        events,
        l,
        b,
    ) by {
        assert forall|k: int| l < k <= b implies (#[trigger] at(events, k)).phase is Storing by {
            lemma_at_earlier(events, k);
            assert(at(prev, k).phase is Storing);
        }
    }
    assert forall|t: int| t <= events.len() && roles_ran(prev, j, t) implies #[trigger] roles_ran(
        events,
        j,
        t,
    ) by {
        assert forall|k: int| j < k < t implies (#[trigger] at(events, k)).phase is Running by {
            lemma_at_earlier(events, k);
            assert(at(prev, k).phase is Running);
        }
    }
}

/// Every run has come as far as the step it waits in says.
proof fn lemma_progress(events: Seq<EventModel>) -> (w: (int, int, int, int))
    ensures
        inv(run(events)),
        0 <= w.0 && 0 <= w.1 && 0 <= w.2 && 0 <= w.3,
        progress(events, w.0, w.1, w.2, w.3),
    decreases events.len(),
{
    lemma_run_inv(events);
    if events.len() == 0 {
        return (0, 0, 0, 0);
    }
    let prev = events.drop_last();
    let event = events.last();
    let m = prev.len() as int;
    let n = events.len() as int;
    let (pi, pl, pj, pt) = lemma_progress(prev);
    let before = run(prev);
    let after = run(events);
    assert(after == step(before, event).0);
    lemma_at_end(events);
    lemma_at_end(prev);
    lemma_at_earlier(events, m);
    lemma_found_stays(events, pi, pl, pj);
    match after.phase {
        PhaseModel::Building { .. } => (0, 0, 0, 0),
        PhaseModel::Loading { .. } => {
            if before.phase is Building {
                assert(built_at(events, m));
                assert forall|k: int| m < k <= n implies (#[trigger] at(events, k)).phase
                    is Loading by {}
                (m, 0, 0, 0)
            } else {
                assert(before.phase is Loading);
                assert(loading(prev, pi, m));
                assert(loading(events, pi, m));
                assert forall|k: int| pi < k <= n implies (#[trigger] at(events, k)).phase
                    is Loading by {
                    if k < n {
                        assert(at(events, k).phase is Loading);
                    }
                }
                (pi, 0, 0, 0)
            }
        },
        PhaseModel::Storing { .. } => {
            if before.phase is Loading {
                assert(loaded_at(events, m));
                assert(loading(prev, pi, m));
                assert(loading(events, pi, m));
                assert forall|k: int| m < k <= n implies (#[trigger] at(events, k)).phase
                    is Storing by {}
                (pi, m, 0, 0)
            } else {
                assert(before.phase is Storing);
                assert(storing(prev, pl, m));
                assert(storing(events, pl, m));
                assert(loading(events, pi, pl));
                assert forall|k: int| pl < k <= n implies (#[trigger] at(events, k)).phase
                    is Storing by {
                    if k < n {
                        assert(at(events, k).phase is Storing);
                    }
                }
                (pi, pl, 0, 0)
            }
        },
        PhaseModel::Running { kind, .. } => {
            if kind == CeremonyKind::Signing {
                if before.phase is Storing {
                    assert(stored_at(events, m));
                    assert(storing(prev, pl, m));
                    assert(storing(events, pl, m));
                    assert(loading(events, pi, pl));
                    assert forall|k: int| m < k < n + 1 implies (#[trigger] at(events, k)).phase
                        is Running by {}
                    (pi, pl, m, 0)
                } else {
                    assert(before.phase is Running);
                    assert(roles_ran(prev, pj, m + 1));
                    assert(roles_ran(events, pj, m + 1));
                    assert(loading(events, pi, pl));
                    assert(storing(events, pl, pj));
                    assert forall|k: int| pj < k < n + 1 implies (#[trigger] at(events, k)).phase
                        is Running by {
                        if k < n {
                            assert(at(events, k).phase is Running);
                        }
                    }
                    (pi, pl, pj, 0)
                }
            } else {
                (0, 0, 0, 0)
            }
        },
        PhaseModel::Ready => {
            if after.state is Successful && after.kind == Some(CeremonyKind::Signing) {
                if before.state is Successful {
                    lemma_successful_is_final(before, event);
                    assert(signing_path(prev, pi, pl, pj, pt));
                    assert(loading(events, pi, pl));
                    assert(storing(events, pl, pj));
                    assert(roles_ran(events, pj, pt));
                    assert forall|k: int| pt <= k <= n implies (#[trigger] at(events, k)).state
                        is Successful by {
                        if k < n {
                            lemma_at_earlier(events, k);
                            assert(at(prev, k).state is Successful);
                        }
                    }
                    (pi, pl, pj, pt)
                } else {
                    assert(before.phase is Running);
                    assert(roles_ran(prev, pj, m + 1));
                    assert(roles_ran(events, pj, n));
                    assert(loading(events, pi, pl));
                    assert(storing(events, pl, pj));
                    assert forall|k: int| n <= k <= n implies (#[trigger] at(events, k)).state
                        is Successful by {}
                    (pi, pl, pj, n)
                }
            } else {
                (0, 0, 0, 0)
            }
        },
    }
}

/// A signing never reaches `Successful` unless its block was built and its
/// record was read and written: in every run that ends in the success of a
/// signing, a block arrived while it was awaited, then a valid record, then
/// the news that the record was written, and from then on only the roles ran
/// until the success.
pub proof fn lemma_success_needs_block_and_store(events: Seq<EventModel>)
    requires
        run(events).state is Successful,
        run(events).kind == Some(CeremonyKind::Signing),
    ensures
        exists|i: int, l: int, j: int, t: int| signing_path(events, i, l, j, t),
{
    let (i, l, j, t) = lemma_progress(events);
    assert(signing_path(events, i, l, j, t));
}

/// The roles of a signing never run unless its block was built and its
/// record was read and written: in every run that has the roles of a signing
/// running, the three steps before them succeeded, one after the other.
pub proof fn lemma_signing_roles_need_steps(events: Seq<EventModel>)
    requires
        run(events).phase matches PhaseModel::Running { kind, .. } && kind
            == CeremonyKind::Signing,
    ensures
        exists|i: int, l: int, j: int| signing_steps(events, i, l, j),
{
    let (i, l, j, t) = lemma_progress(events);
    assert(signing_steps(events, i, l, j));
}

/// No run ends in a success without a ceremony: a success has the kind of
/// the invocation that reached it.
pub proof fn lemma_success_has_a_kind(events: Seq<EventModel>)
    requires
        run(events).state is Successful,
    ensures
        run(events).kind is Some,
{
    lemma_run_inv(events);
}

/// What stands against a signing request is told before anything is asked of
/// the ledger service.
pub proof fn lemma_objection_refuses_signing(
    c: CoordinatorModel,
    request: crate::coordinator::SigningModel,
)
    requires
        signing_objection(c, request) is Some,
    ensures
        step(c, EventModel::StartSigning(request)) == (
            c,
            ActionModel::Reject(signing_objection(c, request)->Some_0),
        ),
{
}

} // verus!
