//! Whole runs of the engine: what holds of every sequence of events that a
//! driver can feed to the machine.

use crate::engine::{
    exhausted_record, transition, Action, CloneRequest, ControllerState, Event, Outcome, Phase,
    MAX_ATTEMPTS,
};
use crate::error::{translation, OsFailure};
use crate::lineage::{appended, lemma_append_preserves_history};
use vstd::prelude::*;

verus! {

/// The state the machine reaches from `start` along `events`, with the
/// actions it asked for on the way, one per event; `None` if it refused one
/// of the events.
pub open spec fn run(start: ControllerState, events: Seq<Event>) -> Option<
    (ControllerState, Seq<Action>),
>
    decreases events.len(),
{
    if events.len() == 0 {
        Some((start, Seq::empty()))
    } else {
        match run(start, events.drop_last()) {
            Some((state, actions)) => match transition(state, events.last()) {
                Some((next, action)) => Some((next, actions.push(action))),
                None => None,
            },
            None => None,
        }
    }
}

/// How many times `actions` asks for a clone attempt.
pub open spec fn attempts_in(actions: Seq<Action>) -> nat
    decreases actions.len(),
{
    if actions.len() == 0 {
        0
    } else {
        attempts_in(actions.drop_last()) + if actions.last() is AttemptClone {
            1nat
        } else {
            0nat
        }
    }
}

/// How many times `actions` asks for the destination to be deleted.
pub open spec fn deletions_in(actions: Seq<Action>) -> nat
    decreases actions.len(),
{
    if actions.len() == 0 {
        0
    } else {
        deletions_in(actions.drop_last()) + if actions.last() is DeleteDestination {
            1nat
        } else {
            0nat
        }
    }
}

/// The event reports a verification, whatever it found.
pub open spec fn is_verification(event: Event) -> bool {
    event is ContentsRead || event is ContentsUnreadable
}

/// The event at `at` found the destination identical to the source, and no
/// verification was reported after it.
pub open spec fn verified_at(events: Seq<Event>, at: int) -> bool {
    &&& 0 <= at < events.len()
    &&& events[at].shows_identical()
    &&& forall|later: int| at < later < events.len() ==> !is_verification(#[trigger] events[later])
}

/// The most steps a machine in `state` can still take.
pub open spec fn steps_left(state: ControllerState) -> nat {
    let spent = if state.retry.attempts_made <= MAX_ATTEMPTS {
        state.retry.attempts_made as nat
    } else {
        MAX_ATTEMPTS as nat
    };
    let rounds = (MAX_ATTEMPTS - spent) as nat;
    match state.retry.phase {
        Phase::Idle => 3 * rounds + 2,
        Phase::Attempting => 3 * rounds + 1,
        Phase::Verifying => 3 * rounds,
        Phase::Deleting => 3 * rounds + 2,
        Phase::ReadingLineage => 2,
        Phase::WritingLineage => 1,
        Phase::Succeeded | Phase::Failed => 0,
    }
}

/// One more action adds to the counts what it is.
proof fn lemma_counts_after(actions: Seq<Action>, action: Action)
    ensures
        attempts_in(actions.push(action)) == attempts_in(actions) + if action is AttemptClone {
            1nat
        } else {
            0nat
        },
        deletions_in(actions.push(action)) == deletions_in(actions) + if action
            is DeleteDestination {
            1nat
        } else {
            0nat
        },
{
    assert(actions.push(action).drop_last() =~= actions);
}

/// A step keeps the machine well formed and never changes the request or the
/// platform setting.
pub proof fn lemma_step_keeps_well_formed(state: ControllerState, event: Event)
    requires
        state.well_formed(),
    ensures
        transition(state, event) matches Some((next, _)) ==> {
            &&& next.well_formed()
            &&& next.request == state.request
            &&& next.record_lineage == state.record_lineage
        },
{
}

/// Whatever the machine asks for is about the paths of its own request: it
/// clones the source into the destination, reads back these two, deletes the
/// destination and nothing else, and keeps the lineage record on the source.
pub proof fn lemma_actions_stay_with_the_request(state: ControllerState, event: Event)
    ensures
        transition(state, event) matches Some((_, action)) ==> {
            let source = state.request.source_path;
            let destination = state.request.destination_path;
            match action {
                Action::AttemptClone { src, dst } => src == source && dst == destination,
                Action::ReadContents { src, dst } => src == source && dst == destination,
                Action::DeleteDestination { dst } => dst == destination,
                Action::ReadLineage { src } => src == source,
                Action::WriteLineage { src, value } => src == source && destination.is_suffix_of(
                    value,
                ),
                Action::Finish(Outcome::Failure(record)) => record.path == source && record.dest
                    == destination,
                Action::Finish(Outcome::Success) => true,
            }
        },
{
    if let Some((_, Action::WriteLineage { src, value })) = transition(state, event) {
        let existing = match event {
            Event::LineageFound(existing) => existing,
            _ => Seq::empty(),
        };
        lemma_append_preserves_history(existing, state.request.destination_path);
    }
}

/// A run keeps the machine well formed, never changes the request or the
/// platform setting, and asks for one action per event.
pub proof fn lemma_run_keeps_well_formed(start: ControllerState, events: Seq<Event>)
    requires
        start.well_formed(),
    ensures
        run(start, events) matches Some((state, actions)) ==> {
            &&& state.well_formed()
            &&& state.request == start.request
            &&& state.record_lineage == start.record_lineage
            &&& actions.len() == events.len()
        },
    decreases events.len(),
{
    if events.len() > 0 {
        lemma_run_keeps_well_formed(start, events.drop_last());
    }
}

/// A machine that has not finished is never stuck: it accepts the report
/// that the action it asked for went well.
pub proof fn lemma_unfinished_machine_accepts_an_answer(state: ControllerState)
    requires
        !state.finished(),
    ensures
        exists|event: Event| #[trigger] transition(state, event) is Some,
{
    let event = match state.retry.phase {
        Phase::Idle => Event::Begin,
        Phase::Attempting => Event::CloneSucceeded,
        Phase::Verifying => Event::ContentsUnreadable,
        Phase::Deleting => Event::Deleted,
        Phase::ReadingLineage => Event::LineageAbsent,
        _ => Event::LineageStored,
    };
    assert(transition(state, event) is Some);
}

/// A finished machine accepts nothing more.
pub proof fn lemma_finished_machine_refuses_all(state: ControllerState, event: Event)
    requires
        state.finished(),
    ensures
        transition(state, event) is None,
{
}

/// The machine stops exactly when it ends the run: the action is a `Finish`
/// if and only if the state that follows is finished, and the outcome is a
/// success if and only if that state is `Succeeded`.
pub proof fn lemma_finish_marks_the_end(state: ControllerState, event: Event)
    ensures
        transition(state, event) matches Some((next, action)) ==> {
            &&& action is Finish <==> next.finished()
            &&& action == Action::Finish(Outcome::Success) <==> next.retry.phase is Succeeded
        },
{
}

/// Every step brings the end nearer.
pub proof fn lemma_step_uses_up_a_step(state: ControllerState, event: Event)
    requires
        state.well_formed(),
    ensures
        transition(state, event) matches Some((next, _)) ==> steps_left(next) < steps_left(state),
{
}

/// No run is longer than eleven events: the retry loop is bounded.
pub proof fn lemma_runs_are_bounded(start: ControllerState, events: Seq<Event>)
    requires
        start.well_formed(),
    ensures
        run(start, events) matches Some((state, _)) ==> events.len() + steps_left(state)
            <= steps_left(start),
        run(start, events) is Some ==> events.len() <= 11,
    decreases events.len(),
{
    if events.len() > 0 {
        let earlier = events.drop_last();
        lemma_runs_are_bounded(start, earlier);
        lemma_run_keeps_well_formed(start, earlier);
        if let Some((state, _)) = run(start, earlier) {
            lemma_step_uses_up_a_step(state, events.last());
        }
    }
}

/// The run of a fresh machine for `request` along `events`.
pub open spec fn clone_run(request: CloneRequest, record_lineage: bool, events: Seq<Event>) -> Option<
    (ControllerState, Seq<Action>),
> {
    run(ControllerState::initial(request, record_lineage), events)
}

/// How the counts of a run stand to the attempts the machine has recorded.
spec fn accounted(state: ControllerState, actions: Seq<Action>) -> bool {
    let made = state.retry.attempts_made as nat;
    let attempts = attempts_in(actions);
    let deletions = deletions_in(actions);
    match state.retry.phase {
        Phase::Idle => attempts == 0 && deletions == 0,
        Phase::Attempting
        | Phase::Verifying
        | Phase::ReadingLineage
        | Phase::WritingLineage
        | Phase::Succeeded => attempts == made + 1 && deletions == made,
        Phase::Deleting => attempts == made && deletions == made,
        Phase::Failed => attempts <= MAX_ATTEMPTS && deletions <= attempts,
    }
}

proof fn lemma_run_is_accounted(request: CloneRequest, record_lineage: bool, events: Seq<Event>)
    ensures
        clone_run(request, record_lineage, events) matches Some((state, actions)) ==> accounted(
            state,
            actions,
        ),
    decreases events.len(),
{
    if events.len() > 0 {
        let start = ControllerState::initial(request, record_lineage);
        let earlier = events.drop_last();
        lemma_run_is_accounted(request, record_lineage, earlier);
        lemma_run_keeps_well_formed(start, earlier);
        if let Some((state, actions)) = run(start, earlier) {
            if let Some((_, action)) = transition(state, events.last()) {
                lemma_counts_after(actions, action);
            }
        }
    }
}

/// However a run goes, the clone is attempted at most [`MAX_ATTEMPTS`] times,
/// and the destination is never deleted more often than the clone was
/// attempted.
pub proof fn lemma_attempts_are_bounded(
    request: CloneRequest,
    record_lineage: bool,
    events: Seq<Event>,
)
    ensures
        clone_run(request, record_lineage, events) matches Some((_, actions)) ==> {
            &&& attempts_in(actions) <= MAX_ATTEMPTS
            &&& deletions_in(actions) <= attempts_in(actions)
        },
{
    lemma_run_is_accounted(request, record_lineage, events);
    lemma_run_keeps_well_formed(ControllerState::initial(request, record_lineage), events);
}

/// A success is only ever reported for a destination that was read back and
/// found identical to the source, byte for byte, at the last verification of
/// the run. The same holds as soon as the machine turns to the lineage
/// record.
pub proof fn lemma_success_follows_identical_contents(
    request: CloneRequest,
    record_lineage: bool,
    events: Seq<Event>,
)
    ensures
        clone_run(request, record_lineage, events) matches Some((state, actions)) ==> {
            &&& state.retry.phase is ReadingLineage || state.retry.phase is WritingLineage
                || state.retry.phase is Succeeded ==> exists|at: int| verified_at(events, at)
            &&& actions.len() > 0 && actions.last() == Action::Finish(Outcome::Success)
                ==> exists|at: int| verified_at(events, at)
        },
    decreases events.len(),
{
    if events.len() > 0 {
        let start = ControllerState::initial(request, record_lineage);
        let earlier = events.drop_last();
        lemma_success_follows_identical_contents(request, record_lineage, earlier);
        if let Some((state, actions)) = run(start, earlier) {
            if let Some((next, action)) = transition(state, events.last()) {
                lemma_finish_marks_the_end(state, events.last());
                assert(actions.push(action).last() == action);
                if next.retry.phase is ReadingLineage || next.retry.phase is WritingLineage
                    || next.retry.phase is Succeeded {
                    if state.retry.phase is Verifying {
                        assert(verified_at(events, events.len() - 1));
                    } else {
                        let at = choose|at: int| verified_at(earlier, at);
                        assert forall|later: int| at < later < events.len() implies !is_verification(
                            #[trigger] events[later],
                        ) by {
                            if later < earlier.len() {
                                assert(events[later] == earlier[later]);
                            }
                        }
                        assert(events[at] == earlier[at]);
                        assert(verified_at(events, at));
                    }
                }
            }
        }
    }
}

/// The driver only ever reports that the request begins, that the clone and
/// the deletion went well, and that the verification did not find the
/// destination identical.
pub open spec fn verifier_always_objects(events: Seq<Event>) -> bool {
    forall|at: int|
        0 <= at < events.len() ==> {
            let event = #[trigger] events[at];
            event is Begin || event is CloneSucceeded || event is Deleted || event.shows_mismatch()
        }
}

proof fn lemma_objections_are_counted(
    request: CloneRequest,
    record_lineage: bool,
    events: Seq<Event>,
)
    requires
        verifier_always_objects(events),
    ensures
        clone_run(request, record_lineage, events) matches Some((state, actions)) ==> {
            &&& accounted(state, actions)
            &&& !(state.retry.phase is ReadingLineage || state.retry.phase is WritingLineage
                || state.retry.phase is Succeeded)
            &&& state.retry.phase is Failed ==> {
                &&& attempts_in(actions) == MAX_ATTEMPTS
                &&& deletions_in(actions) == MAX_ATTEMPTS
                &&& actions.len() > 0
                &&& actions.last() == Action::Finish(
                    Outcome::Failure(
                        exhausted_record(request.source_path, request.destination_path),
                    ),
                )
            }
        },
    decreases events.len(),
{
    if events.len() > 0 {
        let start = ControllerState::initial(request, record_lineage);
        let earlier = events.drop_last();
        assert(verifier_always_objects(earlier)) by {
            assert forall|at: int| 0 <= at < earlier.len() implies {
                let event = #[trigger] earlier[at];
                event is Begin || event is CloneSucceeded || event is Deleted
                    || event.shows_mismatch()
            } by {
                assert(earlier[at] == events[at]);
            }
        }
        lemma_objections_are_counted(request, record_lineage, earlier);
        lemma_run_keeps_well_formed(start, earlier);
        let last = events[events.len() - 1];
        assert(last is Begin || last is CloneSucceeded || last is Deleted || last.shows_mismatch());
        if let Some((state, actions)) = run(start, earlier) {
            if let Some((_, action)) = transition(state, events.last()) {
                lemma_counts_after(actions, action);
                assert(actions.push(action).last() == action);
            }
        }
    }
}

/// If the verifier never finds the destination identical, and cloning and
/// deleting never fail, a run that comes to its end has attempted the clone
/// exactly [`MAX_ATTEMPTS`] times, has deleted the destination as often, and
/// ends in a failure that carries neither code nor number.
pub proof fn lemma_persistent_mismatch_exhausts_retries(
    request: CloneRequest,
    record_lineage: bool,
    events: Seq<Event>,
)
    requires
        verifier_always_objects(events),
    ensures
        clone_run(request, record_lineage, events) matches Some((state, actions)) ==> (
        state.finished() ==> {
            &&& attempts_in(actions) == MAX_ATTEMPTS
            &&& deletions_in(actions) == MAX_ATTEMPTS
            &&& actions.len() > 0
            &&& actions.last() matches Action::Finish(Outcome::Failure(record))
            &&& record == exhausted_record(request.source_path, request.destination_path)
            &&& record.code is None
            &&& record.errno is None
        }),
{
    lemma_objections_are_counted(request, record_lineage, events);
}

/// A clone that the operating system refuses ends the run at once: the
/// machine asks for nothing after the attempt, so a destination that was
/// already there is never deleted, and the failure is the translation of
/// what the operating system reported. A destination that already exists
/// gives `EEXIST` and 17, on the first request and on every repetition; a
/// source that is missing gives `ENOENT` and 2.
pub proof fn lemma_refused_clone_ends_the_run(
    request: CloneRequest,
    record_lineage: bool,
    os_error: OsFailure,
)
    ensures
        ({
            let record = translation(os_error, request.source_path, request.destination_path);
            &&& clone_run(
                request,
                record_lineage,
                seq![Event::Begin, Event::CloneFailed(os_error)],
            ) == Some(
                (
                    ControllerState::initial(request, record_lineage).at(Phase::Failed),
                    seq![
                        Action::AttemptClone {
                            src: request.source_path,
                            dst: request.destination_path,
                        },
                        Action::Finish(Outcome::Failure(record)),
                    ],
                ),
            )
            &&& os_error.kind is AlreadyExists ==> record.code == Some("EEXIST"@) && record.errno
                == Some(17i16)
            &&& os_error.kind is NotFound ==> record.code == Some("ENOENT"@) && record.errno
                == Some(2i16)
        }),
{
    let start = ControllerState::initial(request, record_lineage);
    let events = seq![Event::Begin, Event::CloneFailed(os_error)];
    let first = events.drop_last();
    assert(first =~= seq![Event::Begin]);
    assert(first.drop_last() =~= Seq::<Event>::empty());
    assert(run(start, first.drop_last()) == Some((start, Seq::<Action>::empty())));
    assert(first.last() == Event::Begin);
    let attempt = Action::AttemptClone {
        src: request.source_path,
        dst: request.destination_path,
    };
    assert(run(start, first) == Some(
        (start.at(Phase::Attempting), Seq::<Action>::empty().push(attempt)),
    ));
    assert(events.last() == Event::CloneFailed(os_error));
    let record = translation(os_error, request.source_path, request.destination_path);
    assert(run(start, events).unwrap().1 =~= seq![
        attempt,
        Action::Finish(Outcome::Failure(record)),
    ]);
}

/// With lineage recorded, a run that ends in success has, as its last two
/// steps, asked to write the record grown by this destination and been told
/// that it was written. What the attribute held before is kept unchanged in
/// front (see [`crate::lineage::lemma_append_preserves_history`]).
pub proof fn lemma_success_records_lineage(request: CloneRequest, events: Seq<Event>)
    ensures
        clone_run(request, true, events) matches Some((state, actions)) ==> (state.retry.phase
            is Succeeded ==> {
            let found = events[events.len() - 2];
            let existing = match found {
                Event::LineageFound(value) => value,
                _ => Seq::<char>::empty(),
            };
            &&& events.len() >= 2
            &&& found is LineageFound || found is LineageAbsent
            &&& events.last() is LineageStored
            &&& actions[actions.len() - 2] == (Action::WriteLineage {
                src: request.source_path,
                value: appended(existing, request.destination_path),
            })
        }),
{
    if events.len() > 0 {
        let start = ControllerState::initial(request, true);
        let earlier = events.drop_last();
        lemma_run_keeps_well_formed(start, events);
        lemma_run_keeps_well_formed(start, earlier);
        if let Some((state, actions)) = run(start, earlier) {
            if let Some((next, action)) = transition(state, events.last()) {
                if next.retry.phase is Succeeded {
                    assert(state.retry.phase is WritingLineage);
                    assert(earlier.len() > 0);
                    let before = earlier.drop_last();
                    lemma_run_keeps_well_formed(start, before);
                    let (reading, asked) = run(start, before).unwrap();
                    let (_, write) = transition(reading, earlier.last()).unwrap();
                    assert(events[events.len() - 2] == earlier.last());
                    assert(actions == asked.push(write));
                    assert(actions.push(action)[actions.len() - 1] == write);
                }
            }
        }
    }
}

/// The outcome is a function of the request, the platform setting and the
/// answers of the collaborators: two runs that agree on these agree on every
/// state and every action, on whichever thread each of them is driven.
pub proof fn lemma_same_answers_same_outcome(
    blocking: CloneRequest,
    background: CloneRequest,
    record_lineage: bool,
    blocking_answers: Seq<Event>,
    background_answers: Seq<Event>,
)
    requires
        blocking == background,
        blocking_answers =~= background_answers,
    ensures
        clone_run(blocking, record_lineage, blocking_answers) == clone_run(
            background,
            record_lineage,
            background_answers,
        ),
{
}

} // verus!
