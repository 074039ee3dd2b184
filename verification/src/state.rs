//! The states of a pipeline run, the events that move it on, and the
//! transition table.

use crate::time::{Duration, Timestamp};
use vstd::prelude::*;
use vstd::string::*;

verus! {

/// Where a pipeline run stands.
#[derive(Debug, PartialEq, Eq)]
pub enum State {
    NotAvailable,
    DownloadingInProgress { started_at: Timestamp },
    DownloadingError { details: String },
    Downloaded { file_path: String, duration: Duration },
    ProcessingInProgress { file_path: String, started_at: Timestamp },
    ProcessingError { details: String },
    Processed { file_path: String, duration: Duration },
    IndexingInProgress { file_path: String, started_at: Timestamp },
    IndexingError { details: String },
    Indexed { duration: Duration },
    ValidationInProgress,
    ValidationError { details: String },
    Available,
    Failure { message: String },
}

/// What moves a pipeline run from one state to the next.
#[derive(Clone, Debug, PartialEq, Eq)]
pub enum Event {
    Download,
    DownloadingError(String),
    DownloadingComplete(String, Duration),
    Process(String),
    ProcessingError(String),
    ProcessingComplete(String, Duration),
    Index(String),
    IndexingError(String),
    IndexingComplete(Duration),
    Validate,
    ValidationError(String),
    ValidationComplete,
    Reset,
}

/// The mathematical value of a [`State`].
pub enum StateView {
    NotAvailable,
    DownloadingInProgress { started_at: Timestamp },
    DownloadingError { details: Seq<char> },
    Downloaded { file_path: Seq<char>, duration: Duration },
    ProcessingInProgress { file_path: Seq<char>, started_at: Timestamp },
    ProcessingError { details: Seq<char> },
    Processed { file_path: Seq<char>, duration: Duration },
    IndexingInProgress { file_path: Seq<char>, started_at: Timestamp },
    IndexingError { details: Seq<char> },
    Indexed { duration: Duration },
    ValidationInProgress,
    ValidationError { details: Seq<char> },
    Available,
    Failure { message: Seq<char> },
}

/// The mathematical value of an [`Event`].
pub enum EventView {
    Download,
    DownloadingError(Seq<char>),
    DownloadingComplete(Seq<char>, Duration),
    Process(Seq<char>),
    ProcessingError(Seq<char>),
    ProcessingComplete(Seq<char>, Duration),
    Index(Seq<char>),
    IndexingError(Seq<char>),
    IndexingComplete(Duration),
    Validate,
    ValidationError(Seq<char>),
    ValidationComplete,
    Reset,
}

impl View for State {
    type V = StateView;

    open spec fn view(&self) -> StateView {
        match *self {
            State::NotAvailable => StateView::NotAvailable,
            State::DownloadingInProgress { started_at } => StateView::DownloadingInProgress {
                started_at,
            },
            State::DownloadingError { details } => StateView::DownloadingError {
                details: details@,
            },
            State::Downloaded { file_path, duration } => StateView::Downloaded {
                file_path: file_path@,
                duration,
            },
            State::ProcessingInProgress { file_path, started_at } => {
                StateView::ProcessingInProgress { file_path: file_path@, started_at }
            },
            State::ProcessingError { details } => StateView::ProcessingError { details: details@ },
            State::Processed { file_path, duration } => StateView::Processed {
                file_path: file_path@,
                duration,
            },
            State::IndexingInProgress { file_path, started_at } => StateView::IndexingInProgress {
                file_path: file_path@,
                started_at,
            },
            State::IndexingError { details } => StateView::IndexingError { details: details@ },
            State::Indexed { duration } => StateView::Indexed { duration },
            State::ValidationInProgress => StateView::ValidationInProgress,
            State::ValidationError { details } => StateView::ValidationError { details: details@ },
            State::Available => StateView::Available,
            State::Failure { message } => StateView::Failure { message: message@ },
        }
    }
}

impl View for Event {
    type V = EventView;

    open spec fn view(&self) -> EventView {
        match *self {
            Event::Download => EventView::Download,
            Event::DownloadingError(details) => EventView::DownloadingError(details@),
            Event::DownloadingComplete(path, duration) => EventView::DownloadingComplete(
                path@,
                duration,
            ),
            Event::Process(path) => EventView::Process(path@),
            Event::ProcessingError(details) => EventView::ProcessingError(details@),
            Event::ProcessingComplete(path, duration) => EventView::ProcessingComplete(
                path@,
                duration,
            ),
            Event::Index(path) => EventView::Index(path@),
            Event::IndexingError(details) => EventView::IndexingError(details@),
            Event::IndexingComplete(duration) => EventView::IndexingComplete(duration),
            Event::Validate => EventView::Validate,
            Event::ValidationError(details) => EventView::ValidationError(details@),
            Event::ValidationComplete => EventView::ValidationComplete,
            Event::Reset => EventView::Reset,
        }
    }
}

impl StateView {
    /// The name of the state, without what it carries.
    pub open spec fn name(self) -> Seq<char> {
        match self {
            StateView::NotAvailable => "NotAvailable"@,
            StateView::DownloadingInProgress { .. } => "DownloadingInProgress"@,
            StateView::DownloadingError { .. } => "DownloadingError"@,
            StateView::Downloaded { .. } => "Downloaded"@,
            StateView::ProcessingInProgress { .. } => "ProcessingInProgress"@,
            StateView::ProcessingError { .. } => "ProcessingError"@,
            StateView::Processed { .. } => "Processed"@,
            StateView::IndexingInProgress { .. } => "IndexingInProgress"@,
            StateView::IndexingError { .. } => "IndexingError"@,
            StateView::Indexed { .. } => "Indexed"@,
            StateView::ValidationInProgress => "ValidationInProgress"@,
            StateView::ValidationError { .. } => "ValidationError"@,
            StateView::Available => "Available"@,
            StateView::Failure { .. } => "Failure"@,
        }
    }

    /// When the step of the state began, for a step that is timed.
    pub open spec fn started_at(self) -> Option<Timestamp> {
        match self {
            StateView::DownloadingInProgress { started_at } => Some(started_at),
            StateView::ProcessingInProgress { started_at, .. } => Some(started_at),
            StateView::IndexingInProgress { started_at, .. } => Some(started_at),
            _ => None,
        }
    }

    /// Whether an observer of the published states takes the run as finished:
    /// the pipeline is available, or back to not available.
    pub open spec fn ends_run(self) -> bool {
        self is NotAvailable || self is Available
    }

    /// Whether the state is one of the four that report a failed step.
    pub open spec fn is_error(self) -> bool {
        self is DownloadingError || self is ProcessingError || self is IndexingError
            || self is ValidationError
    }
}

impl EventView {
    /// The name of the event, without what it carries.
    pub open spec fn name(self) -> Seq<char> {
        match self {
            EventView::Download => "Download"@,
            EventView::DownloadingError(..) => "DownloadingError"@,
            EventView::DownloadingComplete(..) => "DownloadingComplete"@,
            EventView::Process(..) => "Process"@,
            EventView::ProcessingError(..) => "ProcessingError"@,
            EventView::ProcessingComplete(..) => "ProcessingComplete"@,
            EventView::Index(..) => "Index"@,
            EventView::IndexingError(..) => "IndexingError"@,
            EventView::IndexingComplete(..) => "IndexingComplete"@,
            EventView::Validate => "Validate"@,
            EventView::ValidationError(..) => "ValidationError"@,
            EventView::ValidationComplete => "ValidationComplete"@,
            EventView::Reset => "Reset"@,
        }
    }
}

/// The transition table: the state that `event` leads to from `state`, for
/// the pairs that are legal, and `None` for every other pair. A step that
/// begins is stamped with `now`.
pub open spec fn successor(state: StateView, event: EventView, now: Timestamp) -> Option<
    StateView,
> {
    match (state, event) {
        (StateView::NotAvailable, EventView::Download) => Some(
            StateView::DownloadingInProgress { started_at: now },
        ),
        (StateView::DownloadingInProgress { .. }, EventView::DownloadingError(details)) => Some(
            StateView::DownloadingError { details },
        ),
        (
            StateView::DownloadingInProgress { .. },
            EventView::DownloadingComplete(file_path, duration),
        ) => Some(StateView::Downloaded { file_path, duration }),
        (StateView::DownloadingError { .. }, EventView::Reset) => Some(StateView::NotAvailable),
        (StateView::Downloaded { .. }, EventView::Process(file_path)) => Some(
            StateView::ProcessingInProgress { file_path, started_at: now },
        ),
        (StateView::Downloaded { .. }, EventView::Index(file_path)) => Some(
            StateView::IndexingInProgress { file_path, started_at: now },
        ),
        (StateView::ProcessingInProgress { .. }, EventView::ProcessingError(details)) => Some(
            StateView::ProcessingError { details },
        ),
        (StateView::ProcessingError { .. }, EventView::Reset) => Some(StateView::NotAvailable),
        (
            StateView::ProcessingInProgress { .. },
            EventView::ProcessingComplete(file_path, duration),
        ) => Some(StateView::Processed { file_path, duration }),
        (StateView::Processed { .. }, EventView::Index(file_path)) => Some(
            StateView::IndexingInProgress { file_path, started_at: now },
        ),
        (StateView::IndexingInProgress { .. }, EventView::IndexingError(details)) => Some(
            StateView::IndexingError { details },
        ),
        (StateView::IndexingError { .. }, EventView::Reset) => Some(StateView::NotAvailable),
        (StateView::IndexingInProgress { .. }, EventView::IndexingComplete(duration)) => Some(
            StateView::Indexed { duration },
        ),
        (StateView::Indexed { .. }, EventView::Validate) => Some(StateView::ValidationInProgress),
        (StateView::ValidationInProgress, EventView::ValidationError(details)) => Some(
            StateView::ValidationError { details },
        ),
        (StateView::ValidationError { .. }, EventView::Reset) => Some(StateView::NotAvailable),
        (StateView::ValidationInProgress, EventView::ValidationComplete) => Some(
            StateView::Available,
        ),
        _ => None,
    }
}

/// Whether the transition table has a row for `event` in `state`.
pub open spec fn legal(state: StateView, event: EventView) -> bool {
    match (state, event) {
        (StateView::NotAvailable, EventView::Download) => true,
        (StateView::DownloadingInProgress { .. }, EventView::DownloadingError(..)) => true,
        (StateView::DownloadingInProgress { .. }, EventView::DownloadingComplete(..)) => true,
        (StateView::DownloadingError { .. }, EventView::Reset) => true,
        (StateView::Downloaded { .. }, EventView::Process(..)) => true,
        (StateView::Downloaded { .. }, EventView::Index(..)) => true,
        (StateView::ProcessingInProgress { .. }, EventView::ProcessingError(..)) => true,
        (StateView::ProcessingError { .. }, EventView::Reset) => true,
        (StateView::ProcessingInProgress { .. }, EventView::ProcessingComplete(..)) => true,
        (StateView::Processed { .. }, EventView::Index(..)) => true,
        (StateView::IndexingInProgress { .. }, EventView::IndexingError(..)) => true,
        (StateView::IndexingError { .. }, EventView::Reset) => true,
        (StateView::IndexingInProgress { .. }, EventView::IndexingComplete(..)) => true,
        (StateView::Indexed { .. }, EventView::Validate) => true,
        (StateView::ValidationInProgress, EventView::ValidationError(..)) => true,
        (StateView::ValidationError { .. }, EventView::Reset) => true,
        (StateView::ValidationInProgress, EventView::ValidationComplete) => true,
        _ => false,
    }
}

/// The message of the failure that an event causes in a state in which it is
/// not legal.
pub open spec fn wrong_combination(state: StateView, event: EventView) -> Seq<char> {
    "Wrong state, event combination: "@ + state.name() + " "@ + event.name()
}

/// The transition function: the row of the table where there is one, and
/// `Failure` for every other pair.
pub open spec fn next(state: StateView, event: EventView, now: Timestamp) -> StateView {
    match successor(state, event, now) {
        Some(to) => to,
        None => StateView::Failure { message: wrong_combination(state, event) },
    }
}

/// The table has a row for exactly the legal pairs, and no row leads to
/// `Failure`: an illegal pair is the only way into it.
pub proof fn law_failure_only_from_illegal_pairs(
    state: StateView,
    event: EventView,
    now: Timestamp,
)
    ensures
        legal(state, event) <==> successor(state, event, now) is Some,
        legal(state, event) ==> next(state, event, now) == successor(state, event, now)->0,
        legal(state, event) ==> !(next(state, event, now) is Failure),
        !legal(state, event) ==> next(state, event, now) == (StateView::Failure {
            message: wrong_combination(state, event),
        }),
{
}

impl Clone for State {
    fn clone(&self) -> (r: State)
        ensures
            r@ == self@,
    {
        match self {
            State::NotAvailable => State::NotAvailable,
            State::DownloadingInProgress { started_at } => State::DownloadingInProgress {
                started_at: *started_at,
            },
            State::DownloadingError { details } => State::DownloadingError {
                details: details.clone(),
            },
            State::Downloaded { file_path, duration } => State::Downloaded {
                file_path: file_path.clone(),
                duration: *duration,
            },
            State::ProcessingInProgress { file_path, started_at } => State::ProcessingInProgress {
                file_path: file_path.clone(),
                started_at: *started_at,
            },
            State::ProcessingError { details } => State::ProcessingError {
                details: details.clone(),
            },
            State::Processed { file_path, duration } => State::Processed {
                file_path: file_path.clone(),
                duration: *duration,
            },
            State::IndexingInProgress { file_path, started_at } => State::IndexingInProgress {
                file_path: file_path.clone(),
                started_at: *started_at,
            },
            State::IndexingError { details } => State::IndexingError { details: details.clone() },
            State::Indexed { duration } => State::Indexed { duration: *duration },
            State::ValidationInProgress => State::ValidationInProgress,
            State::ValidationError { details } => State::ValidationError {
                details: details.clone(),
            },
            State::Available => State::Available,
            State::Failure { message } => State::Failure { message: message.clone() },
        }
    }
}

impl State {
    /// When the step of the state began, for a step that is timed.
    pub fn started_at(&self) -> (r: Option<Timestamp>)
        ensures
            r == self@.started_at(),
    {
        match self {
            State::DownloadingInProgress { started_at } => Some(*started_at),
            State::ProcessingInProgress { started_at, .. } => Some(*started_at),
            State::IndexingInProgress { started_at, .. } => Some(*started_at),
            _ => None,
        }
    }

    /// The name of the state, without what it carries.
    pub fn name(&self) -> (r: &'static str)
        ensures
            r@ == self@.name(),
    {
        match self {
            State::NotAvailable => "NotAvailable",
            State::DownloadingInProgress { .. } => "DownloadingInProgress",
            State::DownloadingError { .. } => "DownloadingError",
            State::Downloaded { .. } => "Downloaded",
            State::ProcessingInProgress { .. } => "ProcessingInProgress",
            State::ProcessingError { .. } => "ProcessingError",
            State::Processed { .. } => "Processed",
            State::IndexingInProgress { .. } => "IndexingInProgress",
            State::IndexingError { .. } => "IndexingError",
            State::Indexed { .. } => "Indexed",
            State::ValidationInProgress => "ValidationInProgress",
            State::ValidationError { .. } => "ValidationError",
            State::Available => "Available",
            State::Failure { .. } => "Failure",
        }
    }

    /// Whether the run has failed.
    pub fn is_failure(&self) -> (r: bool)
        ensures
            r == (self@ is Failure),
    {
        match self {
            State::Failure { .. } => true,
            _ => false,
        }
    }

    /// Whether an observer of the published states takes the run as finished.
    pub fn ends_run(&self) -> (r: bool)
        ensures
            r == self@.ends_run(),
    {
        match self {
            State::NotAvailable => true,
            State::Available => true,
            _ => false,
        }
    }

    /// The state that `event` leads to from this one. `now` is the time of
    /// the transition, with which a step that begins is stamped.
    pub fn next(&self, event: Event, now: Timestamp) -> (r: State)
        ensures
            r@ == next(self@, event@, now),
    {
        match (self, event) {
            (State::NotAvailable, Event::Download) => State::DownloadingInProgress {
                started_at: now,
            },
            (State::DownloadingInProgress { .. }, Event::DownloadingError(details)) => {
                State::DownloadingError { details }
            },
            (
                State::DownloadingInProgress { .. },
                Event::DownloadingComplete(file_path, duration),
            ) => {
                State::Downloaded { file_path, duration }
            },
            (State::DownloadingError { .. }, Event::Reset) => State::NotAvailable,
            (State::Downloaded { .. }, Event::Process(file_path)) => State::ProcessingInProgress {
                file_path,
                started_at: now,
            },
            (State::Downloaded { .. }, Event::Index(file_path)) => State::IndexingInProgress {
                file_path,
                started_at: now,
            },
            (State::ProcessingInProgress { .. }, Event::ProcessingError(details)) => {
                State::ProcessingError { details }
            },
            (State::ProcessingError { .. }, Event::Reset) => State::NotAvailable,
            (
                State::ProcessingInProgress { .. },
                Event::ProcessingComplete(file_path, duration),
            ) => {
                State::Processed { file_path, duration }
            },
            (State::Processed { .. }, Event::Index(file_path)) => State::IndexingInProgress {
                file_path,
                started_at: now,
            },
            (State::IndexingInProgress { .. }, Event::IndexingError(details)) => {
                State::IndexingError { details }
            },
            (State::IndexingError { .. }, Event::Reset) => State::NotAvailable,
            (State::IndexingInProgress { .. }, Event::IndexingComplete(duration)) => {
                State::Indexed { duration }
            },
            (State::Indexed { .. }, Event::Validate) => State::ValidationInProgress,
            (State::ValidationInProgress, Event::ValidationError(details)) => {
                State::ValidationError { details }
            },
            (State::ValidationError { .. }, Event::Reset) => State::NotAvailable,
            (State::ValidationInProgress, Event::ValidationComplete) => State::Available,
            (state, event) => {
                let mut message = String::from_str("Wrong state, event combination: ");
                message.append(state.name());
                message.append(" ");
                message.append(event.name());
                State::Failure { message }
            },
        }
    }
}

impl Event {
    /// The name of the event, without what it carries.
    pub fn name(&self) -> (r: &'static str)
        ensures
            r@ == self@.name(),
    {
        match self {
            Event::Download => "Download",
            Event::DownloadingError(..) => "DownloadingError",
            Event::DownloadingComplete(..) => "DownloadingComplete",
            Event::Process(..) => "Process",
            Event::ProcessingError(..) => "ProcessingError",
            Event::ProcessingComplete(..) => "ProcessingComplete",
            Event::Index(..) => "Index",
            Event::IndexingError(..) => "IndexingError",
            Event::IndexingComplete(..) => "IndexingComplete",
            Event::Validate => "Validate",
            Event::ValidationError(..) => "ValidationError",
            Event::ValidationComplete => "ValidationComplete",
            Event::Reset => "Reset",
        }
    }
}

} // verus!
