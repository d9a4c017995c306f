//! The clone engine: a bounded retry state machine over one clone request.
//!
//! The machine never touches the filesystem. It asks for one [`CloneAction`]
//! at a time; whoever drives it performs the action and reports the result as
//! a [`CloneEvent`]. [`transition`] is the whole of its behaviour.

use crate::error::{
    reads_as, translation, unstructured, ErrorRecord, OsError, OsFailure, ReflinkError,
};
use crate::integrity::verify;
use crate::lineage::{append_destination, appended};
use pipe_trait::Pipe;
use vstd::prelude::*;

verus! {

/// How many times one request may attempt the clone.
pub const MAX_ATTEMPTS: u32 = 3;

/// The status reported for a successful clone.
pub const SUCCESS_STATUS: i32 = 0;

/// A clone request: the source path and the destination path, taken as they
/// are given.
#[derive(Debug, Clone, PartialEq, Eq)]
pub struct AsyncReflink {
    src: String,
    dst: String,
}

/// What an [`AsyncReflink`] stands for.
pub struct CloneRequest {
    pub source_path: Seq<char>,
    pub destination_path: Seq<char>,
}

impl View for AsyncReflink {
    type V = CloneRequest;

    closed spec fn view(&self) -> CloneRequest {
        CloneRequest { source_path: self.src@, destination_path: self.dst@ }
    }
}

impl AsyncReflink {
    /// The request to clone `src` into `dst`.
    pub fn new(src: String, dst: String) -> (request: AsyncReflink)
        ensures
            request@ == (CloneRequest { source_path: src@, destination_path: dst@ }),
    {
        AsyncReflink { src, dst }
    }

    /// The source path.
    pub fn src(&self) -> (path: &str)
        ensures
            path@ == self@.source_path,
    {
        self.src.as_str()
    }

    /// The destination path.
    pub fn dst(&self) -> (path: &str)
        ensures
            path@ == self@.destination_path,
    {
        self.dst.as_str()
    }
}

/// Prepares the clone of `src` into `dst` for a later run.
pub fn reflink_task(src: String, dst: String) -> (request: AsyncReflink)
    ensures
        request@ == (CloneRequest { source_path: src@, destination_path: dst@ }),
{
    AsyncReflink::new(src, dst)
}

/// How one clone request ended.
#[derive(Debug, Clone, PartialEq, Eq)]
pub enum CloneOutcome {
    /// The destination exists and held the source's content when last read.
    Success,
    /// The request failed. A destination may exist all the same: see
    /// [`Event::LineageStoreFailed`].
    Failure(ReflinkError),
}

/// What a [`CloneOutcome`] stands for.
pub enum Outcome {
    Success,
    Failure(ErrorRecord),
}

impl View for CloneOutcome {
    type V = Outcome;

    open spec fn view(&self) -> Outcome {
        match self {
            CloneOutcome::Success => Outcome::Success,
            CloneOutcome::Failure(record) => Outcome::Failure(record@),
        }
    }
}

/// Calls `pipe_trait::Pipe::pipe`, which applies the function it is given to
/// the receiver and returns what the function returns. The function given is
/// [`CloneOutcome::failure`], so the record comes back as a failure.
#[verifier::external_body]
fn pipe_into_failure(record: ReflinkError) -> (outcome: CloneOutcome)
    ensures
        outcome == CloneOutcome::Failure(record),
{
    record.pipe(CloneOutcome::failure)
}

impl CloneOutcome {
    /// The failure that carries `record`.
    pub fn failure(record: ReflinkError) -> (outcome: CloneOutcome)
        ensures
            outcome == CloneOutcome::Failure(record),
    {
        CloneOutcome::Failure(record)
    }

    /// What a caller is told: the status [`SUCCESS_STATUS`] after a success,
    /// the error record after a failure.
    pub fn report(self) -> (told: Result<i32, ReflinkError>)
        ensures
            match self {
                CloneOutcome::Success => told == Ok::<i32, ReflinkError>(SUCCESS_STATUS),
                CloneOutcome::Failure(record) => told == Err::<i32, ReflinkError>(record),
            },
    {
        match self {
            CloneOutcome::Success => Ok(SUCCESS_STATUS),
            CloneOutcome::Failure(record) => Err(record),
        }
    }
}

/// Where a request stands.
#[derive(Debug, Clone, Copy, PartialEq, Eq, Structural)]
pub enum Phase {
    /// Nothing has been asked yet.
    Idle,
    /// The clone primitive is at work.
    Attempting,
    /// Both files are being read back.
    Verifying,
    /// A destination that differs is being deleted.
    Deleting,
    /// The lineage attribute is being read.
    ReadingLineage,
    /// The lineage attribute is being written.
    WritingLineage,
    /// The request ended in success.
    Succeeded,
    /// The request ended in failure.
    Failed,
}

/// The retry bookkeeping of one request.
#[derive(Debug, Clone, Copy, PartialEq, Eq, Structural)]
pub struct RetryState {
    /// How many destinations have been found to differ so far.
    pub attempts_made: u32,
    /// Where the request stands.
    pub phase: Phase,
}

/// What the machine asks its driver to do next. Each action names the paths
/// it is about, so the driver needs nothing but the action.
#[derive(Debug, Clone, PartialEq, Eq)]
pub enum CloneAction {
    /// Clone `src` into `dst` with the platform's primitive.
    AttemptClone { src: String, dst: String },
    /// Read the full content of `src` and of `dst`.
    ReadContents { src: String, dst: String },
    /// Delete `dst`.
    DeleteDestination { dst: String },
    /// Read the lineage attribute of `src`.
    ReadLineage { src: String },
    /// Write `value` to the lineage attribute of `src`.
    WriteLineage { src: String, value: String },
    /// Stop: the request ended with this outcome.
    Finish(CloneOutcome),
}

/// What a [`CloneAction`] stands for.
pub enum Action {
    AttemptClone { src: Seq<char>, dst: Seq<char> },
    ReadContents { src: Seq<char>, dst: Seq<char> },
    DeleteDestination { dst: Seq<char> },
    ReadLineage { src: Seq<char> },
    WriteLineage { src: Seq<char>, value: Seq<char> },
    Finish(Outcome),
}

impl View for CloneAction {
    type V = Action;

    open spec fn view(&self) -> Action {
        match self {
            CloneAction::AttemptClone { src, dst } => Action::AttemptClone {
                src: src@,
                dst: dst@,
            },
            CloneAction::ReadContents { src, dst } => Action::ReadContents {
                src: src@,
                dst: dst@,
            },
            CloneAction::DeleteDestination { dst } => Action::DeleteDestination { dst: dst@ },
            CloneAction::ReadLineage { src } => Action::ReadLineage { src: src@ },
            CloneAction::WriteLineage { src, value } => Action::WriteLineage {
                src: src@,
                value: value@,
            },
            CloneAction::Finish(outcome) => Action::Finish(outcome@),
        }
    }
}

/// What the driver reports back.
#[derive(Debug, Clone, PartialEq, Eq)]
pub enum CloneEvent {
    /// The request is handed to the machine.
    Begin,
    /// The primitive created the destination.
    CloneSucceeded,
    /// The primitive failed.
    CloneFailed(OsError),
    /// Both files were read in full.
    ContentsRead { source: Vec<u8>, destination: Vec<u8> },
    /// One of the files could not be read.
    ContentsUnreadable,
    /// The destination was deleted.
    Deleted,
    /// The destination could not be deleted.
    DeleteFailed(OsError),
    /// The lineage attribute holds this value.
    LineageFound(String),
    /// The source has no lineage attribute.
    LineageAbsent,
    /// The lineage attribute could not be read.
    LineageReadFailed(OsError),
    /// The lineage attribute was written.
    LineageStored,
    /// The lineage attribute could not be written.
    LineageStoreFailed(OsError),
}

/// What a [`CloneEvent`] stands for.
pub enum Event {
    Begin,
    CloneSucceeded,
    CloneFailed(OsFailure),
    ContentsRead { source: Seq<u8>, destination: Seq<u8> },
    ContentsUnreadable,
    Deleted,
    DeleteFailed(OsFailure),
    LineageFound(Seq<char>),
    LineageAbsent,
    LineageReadFailed(OsFailure),
    LineageStored,
    LineageStoreFailed(OsFailure),
}

impl View for CloneEvent {
    type V = Event;

    open spec fn view(&self) -> Event {
        match self {
            CloneEvent::Begin => Event::Begin,
            CloneEvent::CloneSucceeded => Event::CloneSucceeded,
            CloneEvent::CloneFailed(os_error) => Event::CloneFailed(os_error@),
            CloneEvent::ContentsRead { source, destination } => Event::ContentsRead {
                source: source@,
                destination: destination@,
            },
            CloneEvent::ContentsUnreadable => Event::ContentsUnreadable,
            CloneEvent::Deleted => Event::Deleted,
            CloneEvent::DeleteFailed(os_error) => Event::DeleteFailed(os_error@),
            CloneEvent::LineageFound(value) => Event::LineageFound(value@),
            CloneEvent::LineageAbsent => Event::LineageAbsent,
            CloneEvent::LineageReadFailed(os_error) => Event::LineageReadFailed(os_error@),
            CloneEvent::LineageStored => Event::LineageStored,
            CloneEvent::LineageStoreFailed(os_error) => Event::LineageStoreFailed(os_error@),
        }
    }
}

impl CloneEvent {
    /// The report of a clone attempt, from what the primitive returned.
    pub fn cloned(result: Result<(), std::io::Error>) -> (event: CloneEvent)
        ensures
            match result {
                Ok(_) => event@ == Event::CloneSucceeded,
                Err(io_error) => event matches CloneEvent::CloneFailed(os_error) && reads_as(
                    io_error,
                    os_error,
                ),
            },
    {
        match result {
            Ok(()) => CloneEvent::CloneSucceeded,
            Err(io_error) => CloneEvent::CloneFailed(OsError::from_io(&io_error)),
        }
    }

    /// The report of a verification read, from what reading each file
    /// returned. A file that cannot be read cannot be shown identical.
    pub fn contents(
        source: Result<Vec<u8>, std::io::Error>,
        destination: Result<Vec<u8>, std::io::Error>,
    ) -> (event: CloneEvent)
        ensures
            match (source, destination) {
                (Ok(source), Ok(destination)) => event@ == (Event::ContentsRead {
                    source: source@,
                    destination: destination@,
                }),
                _ => event@ == Event::ContentsUnreadable,
            },
    {
        match (source, destination) {
            (Ok(source), Ok(destination)) => CloneEvent::ContentsRead { source, destination },
            _ => CloneEvent::ContentsUnreadable,
        }
    }

    /// The report of a deletion, from what removing the destination returned.
    pub fn deleted(result: Result<(), std::io::Error>) -> (event: CloneEvent)
        ensures
            match result {
                Ok(_) => event@ == Event::Deleted,
                Err(io_error) => event matches CloneEvent::DeleteFailed(os_error) && reads_as(
                    io_error,
                    os_error,
                ),
            },
    {
        match result {
            Ok(()) => CloneEvent::Deleted,
            Err(io_error) => CloneEvent::DeleteFailed(OsError::from_io(&io_error)),
        }
    }

    /// The report of reading the lineage attribute. An attribute that is not
    /// there is no failure.
    pub fn lineage_read(result: Result<Option<String>, std::io::Error>) -> (event: CloneEvent)
        ensures
            match result {
                Ok(Some(value)) => event@ == Event::LineageFound(value@),
                Ok(None) => event@ == Event::LineageAbsent,
                Err(io_error) => event matches CloneEvent::LineageReadFailed(os_error)
                    && reads_as(io_error, os_error),
            },
    {
        match result {
            Ok(Some(value)) => CloneEvent::LineageFound(value),
            Ok(None) => CloneEvent::LineageAbsent,
            Err(io_error) => CloneEvent::LineageReadFailed(OsError::from_io(&io_error)),
        }
    }

    /// The report of writing the lineage attribute.
    pub fn lineage_written(result: Result<(), std::io::Error>) -> (event: CloneEvent)
        ensures
            match result {
                Ok(_) => event@ == Event::LineageStored,
                Err(io_error) => event matches CloneEvent::LineageStoreFailed(os_error)
                    && reads_as(io_error, os_error),
            },
    {
        match result {
            Ok(()) => CloneEvent::LineageStored,
            Err(io_error) => CloneEvent::LineageStoreFailed(OsError::from_io(&io_error)),
        }
    }
}

impl Event {
    /// The event of a verification that found the destination identical to
    /// the source.
    pub open spec fn shows_identical(self) -> bool {
        self matches Event::ContentsRead { source, destination } && source == destination
    }

    /// The event of a verification that did not find the destination
    /// identical: the contents differ, or a file could not be read.
    pub open spec fn shows_mismatch(self) -> bool {
        ||| self is ContentsUnreadable
        ||| self matches Event::ContentsRead { source, destination } && source != destination
    }
}

/// The state of the machine: the request, whether lineage is recorded on this
/// platform, and the retry bookkeeping.
pub struct ControllerState {
    pub request: CloneRequest,
    pub record_lineage: bool,
    pub retry: RetryState,
}

/// What is said when every attempt produced a destination that differs.
pub open spec fn exhausted_detail() -> Seq<char> {
    "content mismatch after 3 attempts"@
}

/// The record of a request that used up its attempts: a message and the
/// paths, without code or number.
pub open spec fn exhausted_record(src: Seq<char>, dst: Seq<char>) -> ErrorRecord {
    unstructured(exhausted_detail(), src, dst)
}

/// What is said when the lineage attribute could not be read or written.
pub open spec fn lineage_detail(os_error: OsFailure) -> Seq<char> {
    "lineage not recorded: "@ + os_error.description
}

impl ControllerState {
    /// The state of a machine that was handed `request` and nothing else.
    pub open spec fn initial(request: CloneRequest, record_lineage: bool) -> ControllerState {
        ControllerState {
            request,
            record_lineage,
            retry: RetryState { attempts_made: 0, phase: Phase::Idle },
        }
    }

    /// The bound on attempts holds, and each phase is one the count allows.
    pub open spec fn well_formed(self) -> bool {
        let made = self.retry.attempts_made;
        match self.retry.phase {
            Phase::Idle => made == 0,
            Phase::Attempting | Phase::Verifying | Phase::Succeeded => made < MAX_ATTEMPTS,
            Phase::ReadingLineage | Phase::WritingLineage => made < MAX_ATTEMPTS
                && self.record_lineage,
            Phase::Deleting => 1 <= made <= MAX_ATTEMPTS,
            Phase::Failed => made <= MAX_ATTEMPTS,
        }
    }

    /// The request has ended.
    pub open spec fn finished(self) -> bool {
        self.retry.phase is Succeeded || self.retry.phase is Failed
    }

    /// The same request, further along.
    pub open spec fn at(self, phase: Phase) -> ControllerState {
        ControllerState {
            retry: RetryState { attempts_made: self.retry.attempts_made, phase },
            ..self
        }
    }

    /// The step into another attempt: the source is to be cloned into the
    /// destination.
    pub open spec fn attempting(self) -> (ControllerState, Action) {
        (
            self.at(Phase::Attempting),
            Action::AttemptClone {
                src: self.request.source_path,
                dst: self.request.destination_path,
            },
        )
    }

    /// The step after the primitive created the destination: both files are
    /// to be read back.
    pub open spec fn after_clone(self) -> (ControllerState, Action) {
        (
            self.at(Phase::Verifying),
            Action::ReadContents {
                src: self.request.source_path,
                dst: self.request.destination_path,
            },
        )
    }

    /// The step that ends the request in success.
    pub open spec fn succeeding(self) -> (ControllerState, Action) {
        (self.at(Phase::Succeeded), Action::Finish(Outcome::Success))
    }

    /// The step that ends the request with `record`.
    pub open spec fn failing(self, record: ErrorRecord) -> (ControllerState, Action) {
        (self.at(Phase::Failed), Action::Finish(Outcome::Failure(record)))
    }

    /// The step after the destination was found identical: on to the lineage
    /// record where there is one, else success.
    pub open spec fn after_match(self) -> (ControllerState, Action) {
        if self.record_lineage {
            (self.at(Phase::ReadingLineage), Action::ReadLineage { src: self.request.source_path })
        } else {
            self.succeeding()
        }
    }

    /// The step after the destination was not found identical: the attempt is
    /// counted and the destination, and nothing else, has to go.
    pub open spec fn after_mismatch(self) -> (ControllerState, Action) {
        (
            ControllerState {
                retry: RetryState {
                    attempts_made: (self.retry.attempts_made + 1) as u32,
                    phase: Phase::Deleting,
                },
                ..self
            },
            Action::DeleteDestination { dst: self.request.destination_path },
        )
    }

    /// The step after the destination was deleted: another attempt while the
    /// bound allows one, else the request fails for good.
    pub open spec fn after_deletion(self) -> (ControllerState, Action) {
        if self.retry.attempts_made < MAX_ATTEMPTS {
            self.attempting()
        } else {
            self.failing(
                exhausted_record(self.request.source_path, self.request.destination_path),
            )
        }
    }

    /// The step after the lineage attribute was read: the destination joins
    /// what was there.
    pub open spec fn after_lineage_read(self, existing: Seq<char>) -> (ControllerState, Action) {
        (
            self.at(Phase::WritingLineage),
            Action::WriteLineage {
                src: self.request.source_path,
                value: appended(existing, self.request.destination_path),
            },
        )
    }

    /// The step after the lineage attribute could not be read or written.
    pub open spec fn after_lineage_failure(self, os_error: OsFailure) -> (ControllerState, Action) {
        self.failing(
            unstructured(
                lineage_detail(os_error),
                self.request.source_path,
                self.request.destination_path,
            ),
        )
    }

    /// The step after the operating system refused the clone or the deletion.
    pub open spec fn after_os_failure(self, os_error: OsFailure) -> (ControllerState, Action) {
        self.failing(
            translation(os_error, self.request.source_path, self.request.destination_path),
        )
    }
}

/// The machine's whole behaviour: the state and the action that follow
/// `event` in `state`, or `None` where `event` does not answer what the
/// machine asked last.
pub open spec fn transition(state: ControllerState, event: Event) -> Option<
    (ControllerState, Action),
> {
    match (state.retry.phase, event) {
        (Phase::Idle, Event::Begin) => Some(state.attempting()),
        (Phase::Attempting, Event::CloneSucceeded) => Some(state.after_clone()),
        (Phase::Attempting, Event::CloneFailed(os_error)) => Some(
            state.after_os_failure(os_error),
        ),
        (Phase::Verifying, Event::ContentsRead { source, destination }) => Some(
            if source == destination {
                state.after_match()
            } else {
                state.after_mismatch()
            },
        ),
        (Phase::Verifying, Event::ContentsUnreadable) => Some(state.after_mismatch()),
        (Phase::Deleting, Event::Deleted) => Some(state.after_deletion()),
        (Phase::Deleting, Event::DeleteFailed(os_error)) => Some(state.after_os_failure(os_error)),
        (Phase::ReadingLineage, Event::LineageFound(existing)) => Some(
            state.after_lineage_read(existing),
        ),
        (Phase::ReadingLineage, Event::LineageAbsent) => Some(
            state.after_lineage_read(Seq::empty()),
        ),
        (Phase::ReadingLineage, Event::LineageReadFailed(os_error)) => Some(
            state.after_lineage_failure(os_error),
        ),
        (Phase::WritingLineage, Event::LineageStored) => Some(state.succeeding()),
        (Phase::WritingLineage, Event::LineageStoreFailed(os_error)) => Some(
            state.after_lineage_failure(os_error),
        ),
        _ => None,
    }
}

/// The retry controller of one clone request.
pub struct RetryController {
    request: AsyncReflink,
    record_lineage: bool,
    retry: RetryState,
}

impl View for RetryController {
    type V = ControllerState;

    closed spec fn view(&self) -> ControllerState {
        ControllerState {
            request: self.request@,
            record_lineage: self.record_lineage,
            retry: self.retry,
        }
    }
}

impl RetryController {
    #[verifier::type_invariant]
    spec fn holds_bound(self) -> bool {
        self@.well_formed()
    }

    /// A machine for `request` that has asked for nothing yet. With
    /// `record_lineage` a verified clone is entered in the lineage attribute
    /// of the source before it counts as a success.
    pub fn new(request: AsyncReflink, record_lineage: bool) -> (machine: RetryController)
        ensures
            machine@ == ControllerState::initial(request@, record_lineage),
    {
        RetryController {
            request,
            record_lineage,
            retry: RetryState { attempts_made: 0, phase: Phase::Idle },
        }
    }

    /// The request this machine works on.
    pub fn request(&self) -> (request: &AsyncReflink)
        ensures
            request@ == self@.request,
    {
        &self.request
    }

    /// The retry bookkeeping as it stands.
    pub fn retry_state(&self) -> (retry: RetryState)
        ensures
            retry == self@.retry,
            self@.well_formed(),
    {
        proof {
            use_type_invariant(self);
        }
        self.retry
    }

    /// Whether the request has ended.
    pub fn is_finished(&self) -> (finished: bool)
        ensures
            finished == self@.finished(),
    {
        match self.retry.phase {
            Phase::Succeeded | Phase::Failed => true,
            _ => false,
        }
    }

    /// Ends the request with `record`.
    fn fail_with(&mut self, record: ReflinkError) -> (action: CloneAction)
        ensures
            (final(self)@, action@) == old(self)@.failing(record@),
    {
        proof {
            use_type_invariant(&*self);
        }
        self.retry = RetryState { attempts_made: self.retry.attempts_made, phase: Phase::Failed };
        CloneAction::Finish(pipe_into_failure(record))
    }

    /// Ends the request with the translation of `os_error`.
    fn fail_with_os_error(&mut self, os_error: &OsError) -> (action: CloneAction)
        ensures
            (final(self)@, action@) == old(self)@.after_os_failure(os_error@),
    {
        let record = ReflinkError::translate(
            os_error,
            self.request.src.clone(),
            self.request.dst.clone(),
        );
        self.fail_with(record)
    }

    /// Ends the request because the lineage record could not be kept.
    fn fail_with_lineage_error(&mut self, os_error: &OsError) -> (action: CloneAction)
        ensures
            (final(self)@, action@) == old(self)@.after_lineage_failure(os_error@),
    {
        let mut detail = String::new();
        detail.append("lineage not recorded: ");
        detail.append(os_error.description.as_str());
        assert(detail@ =~= lineage_detail(os_error@));
        let record = ReflinkError::synthesized(
            detail.as_str(),
            self.request.src.clone(),
            self.request.dst.clone(),
        );
        self.fail_with(record)
    }

    /// Moves on to `phase`; the count of attempts stays.
    fn advance(&mut self, phase: Phase)
        requires
            old(self)@.at(phase).well_formed(),
        ensures
            final(self)@ == old(self)@.at(phase),
    {
        self.retry = RetryState { attempts_made: self.retry.attempts_made, phase };
    }

    /// Asks for a clone attempt.
    fn attempt(&mut self) -> (action: CloneAction)
        requires
            old(self)@.at(Phase::Attempting).well_formed(),
        ensures
            (final(self)@, action@) == old(self)@.attempting(),
    {
        self.advance(Phase::Attempting);
        CloneAction::AttemptClone { src: self.request.src.clone(), dst: self.request.dst.clone() }
    }

    /// Asks for both files to be read back.
    fn cloned(&mut self) -> (action: CloneAction)
        requires
            old(self)@.retry.phase is Attempting,
        ensures
            (final(self)@, action@) == old(self)@.after_clone(),
    {
        proof {
            use_type_invariant(&*self);
        }
        self.advance(Phase::Verifying);
        CloneAction::ReadContents { src: self.request.src.clone(), dst: self.request.dst.clone() }
    }

    /// Ends the request in success.
    fn succeed(&mut self) -> (action: CloneAction)
        requires
            old(self)@.at(Phase::Succeeded).well_formed(),
        ensures
            (final(self)@, action@) == old(self)@.succeeding(),
    {
        self.advance(Phase::Succeeded);
        CloneAction::Finish(CloneOutcome::Success)
    }

    /// Goes on after a verification that found the destination identical.
    fn matched(&mut self) -> (action: CloneAction)
        requires
            old(self)@.retry.phase is Verifying,
        ensures
            (final(self)@, action@) == old(self)@.after_match(),
    {
        proof {
            use_type_invariant(&*self);
        }
        if self.record_lineage {
            self.advance(Phase::ReadingLineage);
            CloneAction::ReadLineage { src: self.request.src.clone() }
        } else {
            self.succeed()
        }
    }

    /// Counts the attempt and asks for the destination to be deleted.
    fn mismatched(&mut self) -> (action: CloneAction)
        requires
            old(self)@.retry.phase is Verifying,
        ensures
            (final(self)@, action@) == old(self)@.after_mismatch(),
    {
        proof {
            use_type_invariant(&*self);
        }
        self.retry = RetryState {
            attempts_made: self.retry.attempts_made + 1,
            phase: Phase::Deleting,
        };
        CloneAction::DeleteDestination { dst: self.request.dst.clone() }
    }

    /// Goes on after the deletion: one more attempt, or the end.
    fn deleted(&mut self) -> (action: CloneAction)
        requires
            old(self)@.retry.phase is Deleting,
        ensures
            (final(self)@, action@) == old(self)@.after_deletion(),
    {
        proof {
            use_type_invariant(&*self);
        }
        if self.retry.attempts_made < MAX_ATTEMPTS {
            self.attempt()
        } else {
            let record = ReflinkError::synthesized(
                "content mismatch after 3 attempts",
                self.request.src.clone(),
                self.request.dst.clone(),
            );
            self.fail_with(record)
        }
    }

    /// Asks for the lineage record, grown by the destination, to be written.
    fn lineage_read(&mut self, existing: &str) -> (action: CloneAction)
        requires
            old(self)@.retry.phase is ReadingLineage,
        ensures
            (final(self)@, action@) == old(self)@.after_lineage_read(existing@),
    {
        proof {
            use_type_invariant(&*self);
        }
        let value = append_destination(existing, self.request.dst.as_str());
        self.advance(Phase::WritingLineage);
        CloneAction::WriteLineage { src: self.request.src.clone(), value }
    }

    /// Takes the driver's report of the last action and decides what comes
    /// next.
    ///
    /// The machine follows [`transition`]. An event that does not answer what
    /// was asked last is refused: `None` comes back and the machine stays as
    /// it was.
    pub fn step(&mut self, event: CloneEvent) -> (action: Option<CloneAction>)
        ensures
            match transition(old(self)@, event@) {
                Some((next, asked)) => {
                    &&& final(self)@ == next
                    &&& action matches Some(given)
                    &&& given@ == asked
                },
                None => final(self)@ == old(self)@ && action is None,
            },
            final(self)@.well_formed(),
    {
        proof {
            use_type_invariant(&*self);
        }
        let phase = self.retry.phase;
        let action = match (phase, event) {
            (Phase::Idle, CloneEvent::Begin) => Some(self.attempt()),
            (Phase::Attempting, CloneEvent::CloneSucceeded) => Some(self.cloned()),
            (Phase::Attempting, CloneEvent::CloneFailed(os_error)) => Some(
                self.fail_with_os_error(&os_error),
            ),
            (Phase::Verifying, CloneEvent::ContentsRead { source, destination }) => {
                if verify(source.as_slice(), destination.as_slice()) {
                    Some(self.matched())
                } else {
                    Some(self.mismatched())
                }
            },
            (Phase::Verifying, CloneEvent::ContentsUnreadable) => Some(self.mismatched()),
            (Phase::Deleting, CloneEvent::Deleted) => Some(self.deleted()),
            (Phase::Deleting, CloneEvent::DeleteFailed(os_error)) => Some(
                self.fail_with_os_error(&os_error),
            ),
            (Phase::ReadingLineage, CloneEvent::LineageFound(existing)) => Some(
                self.lineage_read(existing.as_str()),
            ),
            (Phase::ReadingLineage, CloneEvent::LineageAbsent) => {
                proof {
                    reveal_strlit("");
                }
                assert(""@ =~= Seq::<char>::empty());
                Some(self.lineage_read(""))
            },
            (Phase::ReadingLineage, CloneEvent::LineageReadFailed(os_error)) => Some(
                self.fail_with_lineage_error(&os_error),
            ),
            (Phase::WritingLineage, CloneEvent::LineageStored) => Some(self.succeed()),
            (Phase::WritingLineage, CloneEvent::LineageStoreFailed(os_error)) => Some(
                self.fail_with_lineage_error(&os_error),
            ),
            _ => None,
        };
        proof {
            use_type_invariant(&*self);
        }
        action
    }
}

} // verus!
