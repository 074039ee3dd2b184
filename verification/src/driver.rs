//! The pipeline driver: the configuration of a run, the reaction to each
//! state, and the turn of the driving loop.
//!
//! The driver decides; it does not act. Where a state calls for work in the
//! outside world (a download, a run of an indexing tool, a settle delay), the
//! driver hands out a [`Task`]. The caller performs it and hands back an
//! [`Outcome`], from which the driver derives the event that follows.

use crate::error::{Error, ErrorView};
pub use crate::state::{Event, State};
use crate::state::{next, EventView, StateView};
use crate::text::{decimal, decimal_text, join2, join3, same_text, texts};
use crate::time::{Duration, Timestamp};
use std::collections::VecDeque;
use vstd::prelude::*;
use vstd::string::*;

verus! {

/// A data source for which the pipeline has a handler.
#[derive(Clone, Copy, Debug, PartialEq, Eq, Structural)]
pub enum Source {
    Bano,
    Cosmogony,
    Osm,
    Ntfs,
}

/// Which entities of a map extract are imported into the index.
#[derive(Clone, Copy, Debug, PartialEq, Eq, Structural)]
pub struct ImportOptions {
    pub admin: bool,
    pub way: bool,
    pub poi: bool,
    pub city_level: u32,
}

/// A handler that can download.
#[derive(Clone, Copy, Debug, PartialEq, Eq, Structural)]
pub enum Downloader {
    Bano,
    Osm,
    Ntfs,
}

/// A handler that can index, with the options it takes.
#[derive(Clone, Copy, Debug, PartialEq, Eq, Structural)]
pub enum Importer {
    Bano,
    Cosmogony,
    Osm(ImportOptions),
    Ntfs,
}

/// What is fixed for the whole of a run.
#[derive(Clone, Debug, PartialEq, Eq)]
pub struct PipelineConfig {
    /// What is indexed: admins, streets, addresses...
    pub index_type: String,
    /// Which handler provides the data.
    pub data_source: String,
    /// The region to index; handed to the handlers as it is.
    pub region: String,
    /// Where downloaded and generated files go.
    pub working_dir: String,
    /// Where the indexing tools are found.
    pub handlers_dir: String,
    /// Where the boundary generation tool is found.
    pub cosmogony_dir: String,
    /// How the search engine is reached.
    pub index_endpoint: String,
    /// The topic under which states are published.
    pub topic: String,
}

/// The mathematical value of a [`PipelineConfig`].
pub struct ConfigView {
    pub index_type: Seq<char>,
    pub data_source: Seq<char>,
    pub region: Seq<char>,
    pub working_dir: Seq<char>,
    pub handlers_dir: Seq<char>,
    pub cosmogony_dir: Seq<char>,
    pub index_endpoint: Seq<char>,
    pub topic: Seq<char>,
}

impl View for PipelineConfig {
    type V = ConfigView;

    open spec fn view(&self) -> ConfigView {
        ConfigView {
            index_type: self.index_type@,
            data_source: self.data_source@,
            region: self.region@,
            working_dir: self.working_dir@,
            handlers_dir: self.handlers_dir@,
            cosmogony_dir: self.cosmogony_dir@,
            index_endpoint: self.index_endpoint@,
            topic: self.topic@,
        }
    }
}

/// Work in the outside world that a state calls for, with all that the
/// handler is given.
#[derive(Clone, Debug, PartialEq, Eq)]
pub enum Task {
    /// Download the data of `region` with the download routine of `handler`.
    Download { handler: Downloader, working_dir: String, region: String },
    /// Generate the boundaries of `region` from the downloaded `file_path`.
    Transform { cosmogony_dir: String, working_dir: String, file_path: String, region: String },
    /// Index `file_path` with the indexing tool of `handler`.
    Index { handler: Importer, handlers_dir: String, index_endpoint: String, file_path: String },
    /// Let the index settle for `delay` before it is declared available.
    Settle { delay: Duration },
}

/// The mathematical value of a [`Task`].
pub enum TaskView {
    Download { handler: Downloader, working_dir: Seq<char>, region: Seq<char> },
    Transform {
        cosmogony_dir: Seq<char>,
        working_dir: Seq<char>,
        file_path: Seq<char>,
        region: Seq<char>,
    },
    Index {
        handler: Importer,
        handlers_dir: Seq<char>,
        index_endpoint: Seq<char>,
        file_path: Seq<char>,
    },
    Settle { delay: Duration },
}

impl View for Task {
    type V = TaskView;

    open spec fn view(&self) -> TaskView {
        match *self {
            Task::Download { handler, working_dir, region } => TaskView::Download {
                handler,
                working_dir: working_dir@,
                region: region@,
            },
            Task::Transform { cosmogony_dir, working_dir, file_path, region } => {
                TaskView::Transform {
                    cosmogony_dir: cosmogony_dir@,
                    working_dir: working_dir@,
                    file_path: file_path@,
                    region: region@,
                }
            },
            Task::Index { handler, handlers_dir, index_endpoint, file_path } => TaskView::Index {
                handler,
                handlers_dir: handlers_dir@,
                index_endpoint: index_endpoint@,
                file_path: file_path@,
            },
            Task::Settle { delay } => TaskView::Settle { delay },
        }
    }
}

/// How a task ended.
#[derive(Clone, Debug, PartialEq, Eq)]
pub enum Outcome {
    /// The task succeeded after `elapsed`. `path` is the file that a download
    /// or a transformation produced; the other tasks produce none, and their
    /// `path` is not read.
    Succeeded { path: String, elapsed: Duration },
    /// The task failed with `error`.
    Failed { error: Error },
}

/// The mathematical value of an [`Outcome`].
pub enum OutcomeView {
    Succeeded { path: Seq<char>, elapsed: Duration },
    Failed { error: ErrorView },
}

impl View for Outcome {
    type V = OutcomeView;

    open spec fn view(&self) -> OutcomeView {
        match *self {
            Outcome::Succeeded { path, elapsed } => OutcomeView::Succeeded { path: path@, elapsed },
            Outcome::Failed { error } => OutcomeView::Failed { error: error@ },
        }
    }
}

/// What the driver does about a state.
#[derive(Clone, Debug, PartialEq, Eq)]
pub enum Reaction {
    /// Nothing: the state is idle or terminal.
    Idle,
    /// The event follows at once.
    Enqueue(Event),
    /// The task is performed outside; its outcome gives the event that follows.
    Perform(Task),
}

/// The mathematical value of a [`Reaction`].
pub enum ReactionView {
    Idle,
    Enqueue(EventView),
    Perform(TaskView),
}

impl View for Reaction {
    type V = ReactionView;

    open spec fn view(&self) -> ReactionView {
        match *self {
            Reaction::Idle => ReactionView::Idle,
            Reaction::Enqueue(event) => ReactionView::Enqueue(event@),
            Reaction::Perform(task) => ReactionView::Perform(task@),
        }
    }
}

/// The handler that a data source identifier names, if any.
pub open spec fn source_of(data_source: Seq<char>) -> Option<Source> {
    if data_source == "cosmogony"@ {
        Some(Source::Cosmogony)
    } else if data_source == "bano"@ {
        Some(Source::Bano)
    } else if data_source == "osm"@ {
        Some(Source::Osm)
    } else if data_source == "ntfs"@ {
        Some(Source::Ntfs)
    } else {
        None
    }
}

/// The handler whose download routine serves `source`: boundaries are
/// generated from a map extract, every other source downloads its own data.
pub open spec fn downloader_of(source: Source) -> Downloader {
    match source {
        Source::Bano => Downloader::Bano,
        Source::Cosmogony => Downloader::Osm,
        Source::Osm => Downloader::Osm,
        Source::Ntfs => Downloader::Ntfs,
    }
}

/// The city level that is handed to the map extract importer.
pub const DEFAULT_CITY_LEVEL: u32 = 8;

/// What a map extract is imported for, by index type: administrative
/// boundaries only for "admins", ways only for "streets", and no supported
/// import for any other index type.
pub open spec fn import_options(index_type: Seq<char>) -> Option<ImportOptions> {
    if index_type == "admins"@ {
        Some(ImportOptions { admin: true, way: false, poi: false, city_level: DEFAULT_CITY_LEVEL })
    } else if index_type == "streets"@ {
        Some(ImportOptions { admin: false, way: true, poi: false, city_level: DEFAULT_CITY_LEVEL })
    } else {
        None
    }
}

/// How long the index is left to settle before it is declared available.
pub open spec fn settle_delay() -> Duration {
    Duration { secs: 1, nanos: 0 }
}

/// The handler whose indexing tool serves `source`, for an index type: that
/// of the source itself. A map extract is imported with the options of the
/// index type, and cannot be imported for an index type that has none.
pub open spec fn importer_of(source: Source, index_type: Seq<char>) -> Option<Importer> {
    match source {
        Source::Bano => Some(Importer::Bano),
        Source::Cosmogony => Some(Importer::Cosmogony),
        Source::Osm => match import_options(index_type) {
            Some(options) => Some(Importer::Osm(options)),
            None => None,
        },
        Source::Ntfs => Some(Importer::Ntfs),
    }
}

/// The name of a handler in the message of an indexing failure.
pub open spec fn index_label(handler: Importer) -> Seq<char> {
    match handler {
        Importer::Bano => "BANO"@,
        Importer::Cosmogony => "cosmogony"@,
        Importer::Osm(_) => "OSM"@,
        Importer::Ntfs => "NTFS"@,
    }
}

/// The reaction to each state under a configuration.
///
/// A step in progress is handed to the handler of the data source; where no
/// handler can take it, the step fails at once. An error state resets. A
/// finished step is followed by the next one: a download by boundary
/// generation for "cosmogony" and by indexing for every other source.
/// `NotAvailable`, `Available` and `Failure` are left alone.
pub open spec fn reaction(state: StateView, config: ConfigView) -> ReactionView {
    match state {
        StateView::NotAvailable => ReactionView::Idle,
        StateView::DownloadingInProgress { .. } => match source_of(config.data_source) {
            Some(source) => ReactionView::Perform(
                TaskView::Download {
                    handler: downloader_of(source),
                    working_dir: config.working_dir,
                    region: config.region,
                },
            ),
            None => ReactionView::Enqueue(
                EventView::DownloadingError("don't know how to download "@ + config.data_source),
            ),
        },
        StateView::DownloadingError { .. } => ReactionView::Enqueue(EventView::Reset),
        StateView::Downloaded { file_path, .. } => if config.data_source == "cosmogony"@ {
            ReactionView::Enqueue(EventView::Process(file_path))
        } else {
            ReactionView::Enqueue(EventView::Index(file_path))
        },
        StateView::ProcessingInProgress { file_path, .. } => if config.data_source
            == "cosmogony"@ {
            ReactionView::Perform(
                TaskView::Transform {
                    cosmogony_dir: config.cosmogony_dir,
                    working_dir: config.working_dir,
                    file_path,
                    region: config.region,
                },
            )
        } else {
            ReactionView::Enqueue(
                EventView::ProcessingError("don't know how to process "@ + config.data_source),
            )
        },
        StateView::ProcessingError { .. } => ReactionView::Enqueue(EventView::Reset),
        StateView::Processed { file_path, .. } => ReactionView::Enqueue(
            EventView::Index(file_path),
        ),
        StateView::IndexingInProgress { file_path, .. } => match source_of(config.data_source) {
            Some(source) => match importer_of(source, config.index_type) {
                Some(handler) => ReactionView::Perform(
                    TaskView::Index {
                        handler,
                        handlers_dir: config.handlers_dir,
                        index_endpoint: config.index_endpoint,
                        file_path,
                    },
                ),
                None => ReactionView::Enqueue(
                    EventView::IndexingError(
                        "Could not index "@ + config.index_type + " using OSM"@,
                    ),
                ),
            },
            None => ReactionView::Enqueue(
                EventView::IndexingError("Dont know how to index "@ + config.data_source),
            ),
        },
        StateView::IndexingError { .. } => ReactionView::Enqueue(EventView::Reset),
        StateView::Indexed { .. } => ReactionView::Enqueue(EventView::Validate),
        StateView::ValidationInProgress => ReactionView::Perform(
            TaskView::Settle { delay: settle_delay() },
        ),
        StateView::ValidationError { .. } => ReactionView::Enqueue(EventView::Reset),
        StateView::Available => ReactionView::Idle,
        StateView::Failure { .. } => ReactionView::Idle,
    }
}

/// The event that the outcome of a task gives: the completion of the step
/// when the task succeeded, the error of the step with the message of the
/// failure when it did not.
pub open spec fn completion(task: TaskView, outcome: OutcomeView) -> EventView {
    match (task, outcome) {
        (TaskView::Download { .. }, OutcomeView::Succeeded { path, elapsed }) => {
            EventView::DownloadingComplete(path, elapsed)
        },
        (TaskView::Download { .. }, OutcomeView::Failed { error }) => EventView::DownloadingError(
            "Could not download: "@ + error.message(),
        ),
        (TaskView::Transform { .. }, OutcomeView::Succeeded { path, elapsed }) => {
            EventView::ProcessingComplete(path, elapsed)
        },
        (TaskView::Transform { .. }, OutcomeView::Failed { error }) => EventView::ProcessingError(
            "Could not process: "@ + error.message(),
        ),
        (TaskView::Index { .. }, OutcomeView::Succeeded { elapsed, .. }) => {
            EventView::IndexingComplete(elapsed)
        },
        (TaskView::Index { handler, .. }, OutcomeView::Failed { error }) => {
            EventView::IndexingError(
                "Could not index "@ + index_label(handler) + ": "@ + error.message(),
            )
        },
        (TaskView::Settle { .. }, OutcomeView::Succeeded { .. }) => EventView::ValidationComplete,
        (TaskView::Settle { .. }, OutcomeView::Failed { error }) => EventView::ValidationError(
            "Could not validate: "@ + error.message(),
        ),
    }
}

/// The one event that follows a state, if any: the event of its reaction, or
/// the completion of its task under `outcome`.
pub open spec fn follow_up(state: StateView, config: ConfigView, outcome: OutcomeView) -> Option<
    EventView,
> {
    match reaction(state, config) {
        ReactionView::Idle => None,
        ReactionView::Enqueue(event) => Some(event),
        ReactionView::Perform(task) => Some(completion(task, outcome)),
    }
}

/// The handler that a data source identifier names, if any.
pub fn find_source(data_source: &str) -> (r: Option<Source>)
    ensures
        r == source_of(data_source@),
{
    if same_text(data_source, "cosmogony") {
        Some(Source::Cosmogony)
    } else if same_text(data_source, "bano") {
        Some(Source::Bano)
    } else if same_text(data_source, "osm") {
        Some(Source::Osm)
    } else if same_text(data_source, "ntfs") {
        Some(Source::Ntfs)
    } else {
        None
    }
}

/// What a map extract is imported for, by index type.
pub fn find_import_options(index_type: &str) -> (r: Option<ImportOptions>)
    ensures
        r == import_options(index_type@),
{
    if same_text(index_type, "admins") {
        Some(ImportOptions { admin: true, way: false, poi: false, city_level: DEFAULT_CITY_LEVEL })
    } else if same_text(index_type, "streets") {
        Some(ImportOptions { admin: false, way: true, poi: false, city_level: DEFAULT_CITY_LEVEL })
    } else {
        None
    }
}

/// The handler whose download routine serves `source`.
pub fn find_downloader(source: Source) -> (r: Downloader)
    ensures
        r == downloader_of(source),
{
    match source {
        Source::Bano => Downloader::Bano,
        Source::Cosmogony => Downloader::Osm,
        Source::Osm => Downloader::Osm,
        Source::Ntfs => Downloader::Ntfs,
    }
}

/// The handler whose indexing tool serves `source`, for an index type.
pub fn find_importer(source: Source, index_type: &str) -> (r: Option<Importer>)
    ensures
        r == importer_of(source, index_type@),
{
    match source {
        Source::Bano => Some(Importer::Bano),
        Source::Cosmogony => Some(Importer::Cosmogony),
        Source::Osm => match find_import_options(index_type) {
            Some(options) => Some(Importer::Osm(options)),
            None => None,
        },
        Source::Ntfs => Some(Importer::Ntfs),
    }
}

fn label_of(handler: Importer) -> (r: &'static str)
    ensures
        r@ == index_label(handler),
{
    match handler {
        Importer::Bano => "BANO",
        Importer::Cosmogony => "cosmogony",
        Importer::Osm(_) => "OSM",
        Importer::Ntfs => "NTFS",
    }
}

/// The reaction to `state` under `config`.
pub fn react(state: &State, config: &PipelineConfig) -> (r: Reaction)
    ensures
        r@ == reaction(state@, config@),
{
    match state {
        State::NotAvailable => Reaction::Idle,
        State::DownloadingInProgress { .. } => match find_source(config.data_source.as_str()) {
            Some(source) => Reaction::Perform(
                Task::Download {
                    handler: find_downloader(source),
                    working_dir: config.working_dir.clone(),
                    region: config.region.clone(),
                },
            ),
            None => Reaction::Enqueue(
                Event::DownloadingError(
                    join2("don't know how to download ", config.data_source.as_str()),
                ),
            ),
        },
        State::DownloadingError { .. } => Reaction::Enqueue(Event::Reset),
        State::Downloaded { file_path, .. } => if same_text(
            config.data_source.as_str(),
            "cosmogony",
        ) {
            Reaction::Enqueue(Event::Process(file_path.clone()))
        } else {
            Reaction::Enqueue(Event::Index(file_path.clone()))
        },
        State::ProcessingInProgress { file_path, .. } => if same_text(
            config.data_source.as_str(),
            "cosmogony",
        ) {
            Reaction::Perform(
                Task::Transform {
                    cosmogony_dir: config.cosmogony_dir.clone(),
                    working_dir: config.working_dir.clone(),
                    file_path: file_path.clone(),
                    region: config.region.clone(),
                },
            )
        } else {
            Reaction::Enqueue(
                Event::ProcessingError(
                    join2("don't know how to process ", config.data_source.as_str()),
                ),
            )
        },
        State::ProcessingError { .. } => Reaction::Enqueue(Event::Reset),
        State::Processed { file_path, .. } => Reaction::Enqueue(Event::Index(file_path.clone())),
        State::IndexingInProgress { file_path, .. } => match find_source(
            config.data_source.as_str(),
        ) {
            Some(source) => match find_importer(source, config.index_type.as_str()) {
                Some(handler) => Reaction::Perform(
                    Task::Index {
                        handler,
                        handlers_dir: config.handlers_dir.clone(),
                        index_endpoint: config.index_endpoint.clone(),
                        file_path: file_path.clone(),
                    },
                ),
                None => Reaction::Enqueue(
                    Event::IndexingError(
                        join3("Could not index ", config.index_type.as_str(), " using OSM"),
                    ),
                ),
            },
            None => Reaction::Enqueue(
                Event::IndexingError(join2("Dont know how to index ", config.data_source.as_str())),
            ),
        },
        State::IndexingError { .. } => Reaction::Enqueue(Event::Reset),
        State::Indexed { .. } => Reaction::Enqueue(Event::Validate),
        State::ValidationInProgress => Reaction::Perform(
            Task::Settle { delay: Duration { secs: 1, nanos: 0 } },
        ),
        State::ValidationError { .. } => Reaction::Enqueue(Event::Reset),
        State::Available => Reaction::Idle,
        State::Failure { .. } => Reaction::Idle,
    }
}

/// The event that `outcome` gives as the end of `task`.
pub fn conclude(task: &Task, outcome: Outcome) -> (r: Event)
    ensures
        r@ == completion(task@, outcome@),
{
    match task {
        Task::Download { .. } => match outcome {
            Outcome::Succeeded { path, elapsed } => Event::DownloadingComplete(path, elapsed),
            Outcome::Failed { error } => Event::DownloadingError(
                join2("Could not download: ", error.message().as_str()),
            ),
        },
        Task::Transform { .. } => match outcome {
            Outcome::Succeeded { path, elapsed } => Event::ProcessingComplete(path, elapsed),
            Outcome::Failed { error } => Event::ProcessingError(
                join2("Could not process: ", error.message().as_str()),
            ),
        },
        Task::Index { handler, .. } => match outcome {
            Outcome::Succeeded { elapsed, .. } => Event::IndexingComplete(elapsed),
            Outcome::Failed { error } => {
                let mut message = join3("Could not index ", label_of(*handler), ": ");
                message.append(error.message().as_str());
                Event::IndexingError(message)
            },
        },
        Task::Settle { .. } => match outcome {
            Outcome::Succeeded { .. } => Event::ValidationComplete,
            Outcome::Failed { error } => Event::ValidationError(
                join2("Could not validate: ", error.message().as_str()),
            ),
        },
    }
}

/// The driver of one pipeline run: the current state, the events that wait,
/// and the configuration.
pub struct Driver {
    state: State,
    events: VecDeque<Event>,
    config: PipelineConfig,
    endpoint: String,
}

/// The mathematical value of a [`Driver`].
pub struct DriverView {
    pub state: StateView,
    /// The events that wait, the next one first.
    pub events: Seq<EventView>,
    pub config: ConfigView,
    /// Where the states are published.
    pub endpoint: Seq<char>,
}

/// The values of the events of a queue, in order.
pub open spec fn event_views(events: Seq<Event>) -> Seq<EventView> {
    events.map_values(|event: Event| event@)
}

/// What a turn of the driving loop came to.
#[derive(Clone, Copy, Debug, PartialEq, Eq, Structural)]
pub enum Turn {
    /// Nothing was done, and the loop is over: no event waits, or the run has
    /// failed.
    Over,
    /// An event was consumed and led to `Failure`: the state is published and
    /// the loop stops.
    Halt,
    /// An event was consumed: the state is published, then reacted to.
    Proceed,
}

impl DriverView {
    /// Whether a turn finds nothing to do: no event waits, or the run has
    /// failed.
    pub open spec fn is_over(self) -> bool {
        self.state is Failure || self.events.len() == 0
    }

    /// The driver after a turn at time `now`: the first event is consumed and
    /// the state moves by the transition table.
    pub open spec fn turned(self, now: Timestamp) -> DriverView
        recommends
            !self.is_over(),
    {
        DriverView {
            state: next(self.state, self.events[0], now),
            events: self.events.skip(1),
            ..self
        }
    }

    /// The task that the state calls for, if it calls for one.
    pub open spec fn task(self) -> Option<TaskView> {
        match reaction(self.state, self.config) {
            ReactionView::Perform(task) => Some(task),
            _ => None,
        }
    }

    /// The driver after the reaction to its state, as far as the driver goes
    /// by itself: an event that follows at once has joined the queue.
    pub open spec fn ran(self) -> DriverView {
        match reaction(self.state, self.config) {
            ReactionView::Enqueue(event) => DriverView { events: self.events.push(event), ..self },
            _ => self,
        }
    }

    /// The driver after the task of its state has ended with `outcome`: the
    /// event that the outcome gives has joined the queue. A state without a
    /// task leaves the driver as it is.
    pub open spec fn completed(self, outcome: OutcomeView) -> DriverView {
        match reaction(self.state, self.config) {
            ReactionView::Perform(task) => DriverView {
                events: self.events.push(completion(task, outcome)),
                ..self
            },
            _ => self,
        }
    }

    /// The driver after the whole reaction to its state, where the task of
    /// the state, if it has one, ends with `outcome`.
    pub open spec fn reacted(self, outcome: OutcomeView) -> DriverView {
        self.ran().completed(outcome)
    }
}

/// The reaction to a state puts exactly one event into the queue, or none:
/// the event that follows the state, if there is one.
pub proof fn law_reaction_is_one_event_or_none(driver: DriverView, outcome: OutcomeView)
    ensures
        driver.reacted(outcome) == (DriverView {
            events: match follow_up(driver.state, driver.config, outcome) {
                Some(event) => driver.events.push(event),
                None => driver.events,
            },
            ..driver
        }),
{
}

/// The message that publishes a state: the topic, then the serialized state.
pub open spec fn framed(topic: Seq<char>, serialized: Seq<char>) -> Seq<Seq<char>> {
    seq![topic, serialized]
}

/// The serialized state of a published message: its second part. A message
/// of fewer parts carries none.
pub open spec fn payload_of(parts: Seq<Seq<char>>) -> Result<Seq<char>, ErrorView> {
    if parts.len() >= 2 {
        Ok(parts[1])
    } else {
        Err(
            ErrorView::MiscError {
                details: "Just one item in a multipart message. That is plain wrong!"@,
            },
        )
    }
}

/// What was framed is the payload of the frame.
pub proof fn law_payload_of_frame(topic: Seq<char>, serialized: Seq<char>)
    ensures
        payload_of(framed(topic, serialized)) == Ok::<Seq<char>, ErrorView>(serialized),
{
}

/// The serialized state of the published message `parts`.
pub fn payload(parts: &Vec<String>) -> (r: Result<&str, Error>)
    ensures
        match r {
            Ok(serialized) => payload_of(texts(parts@)) == Ok::<Seq<char>, ErrorView>(
                serialized@,
            ),
            Err(error) => payload_of(texts(parts@)) == Err::<Seq<char>, ErrorView>(error@),
        },
{
    if parts.len() >= 2 {
        Ok(parts[1].as_str())
    } else {
        Err(
            Error::MiscError {
                details: String::from_str(
                    "Just one item in a multipart message. That is plain wrong!",
                ),
            },
        )
    }
}

/// The address on which the states of a run are published, by port.
pub open spec fn publish_endpoint(port: u32) -> Seq<char> {
    "tcp://127.0.0.1:"@ + decimal(port as nat)
}

impl View for Driver {
    type V = DriverView;

    closed spec fn view(&self) -> DriverView {
        DriverView {
            state: self.state@,
            events: event_views(self.events@),
            config: self.config@,
            endpoint: self.endpoint@,
        }
    }
}

impl Driver {
    /// A driver for one run, in `NotAvailable`, with no event waiting, and
    /// with the fixed working directory, tool directories and search engine
    /// address.
    pub fn new(
        index_type: &str,
        data_source: &str,
        region: &str,
        topic: String,
        port: u32,
    ) -> (r: Driver)
        ensures
            r@.state == StateView::NotAvailable,
            r@.events == Seq::<EventView>::empty(),
            r@.config == (ConfigView {
                index_type: index_type@,
                data_source: data_source@,
                region: region@,
                working_dir: "./work"@,
                handlers_dir: "/home/matt/lab/rust/kisio/mimirsbrunn"@,
                cosmogony_dir: "/home/matt/lab/rust/kisio/cosmogony"@,
                index_endpoint: "http://localhost:9200/"@,
                topic: topic@,
            }),
            r@.endpoint == publish_endpoint(port),
    {
        let config = PipelineConfig {
            index_type: String::from_str(index_type),
            data_source: String::from_str(data_source),
            region: String::from_str(region),
            working_dir: String::from_str("./work"),
            handlers_dir: String::from_str("/home/matt/lab/rust/kisio/mimirsbrunn"),
            cosmogony_dir: String::from_str("/home/matt/lab/rust/kisio/cosmogony"),
            index_endpoint: String::from_str("http://localhost:9200/"),
            topic,
        };
        let endpoint = join2("tcp://127.0.0.1:", decimal_text(port).as_str());
        Driver::with_config(config, endpoint)
    }

    /// A driver for one run under `config`, in `NotAvailable`, with no event
    /// waiting, that publishes on `endpoint`.
    pub fn with_config(config: PipelineConfig, endpoint: String) -> (r: Driver)
        ensures
            r@.state == StateView::NotAvailable,
            r@.events == Seq::<EventView>::empty(),
            r@.config == config@,
            r@.endpoint == endpoint@,
    {
        Driver { state: State::NotAvailable, events: VecDeque::new(), config, endpoint }
    }

    /// The current state.
    pub fn state(&self) -> (r: &State)
        ensures
            r@ == self@.state,
    {
        &self.state
    }

    /// The configuration of the run.
    pub fn config(&self) -> (r: &PipelineConfig)
        ensures
            r@ == self@.config,
    {
        &self.config
    }

    /// The address on which the states are published.
    pub fn endpoint(&self) -> (r: &str)
        ensures
            r@ == self@.endpoint,
    {
        self.endpoint.as_str()
    }

    /// How many events wait.
    pub fn pending(&self) -> (r: usize)
        ensures
            r == self@.events.len(),
    {
        self.events.len()
    }

    /// Seeds a run: `Download` joins the queue.
    pub fn start(&mut self)
        ensures
            final(self)@ == (DriverView {
                events: old(self)@.events.push(EventView::Download),
                ..old(self)@
            }),
    {
        self.events.push_back(Event::Download);
        assert(event_views(self.events@) =~= event_views(old(self).events@).push(
            EventView::Download,
        ));
    }

    /// Moves the state by the transition table on `event`, at time `now`. The
    /// queue is left as it is.
    pub fn next(&mut self, event: Event, now: Timestamp)
        ensures
            final(self)@ == (DriverView {
                state: next(old(self)@.state, event@, now),
                ..old(self)@
            }),
    {
        let state = self.state.next(event, now);
        self.state = state;
    }

    /// Reacts to the current state. Where an event follows at once, it joins
    /// the queue. Where the state calls for a task, the task is returned, and
    /// the queue is left as it is until [`Driver::complete`] is told the
    /// outcome. In `NotAvailable`, `Available` and `Failure` nothing is done.
    pub fn run(&mut self) -> (r: Option<Task>)
        ensures
            final(self)@ == old(self)@.ran(),
            match r {
                Some(task) => old(self)@.task() == Some(task@),
                None => old(self)@.task() is None,
            },
    {
        match react(&self.state, &self.config) {
            Reaction::Idle => None,
            Reaction::Enqueue(event) => {
                let ghost value = event@;
                self.events.push_back(event);
                assert(event_views(self.events@) =~= event_views(old(self).events@).push(value));
                None
            },
            Reaction::Perform(task) => Some(task),
        }
    }

    /// Takes the outcome of the task of the current state: the event that it
    /// gives joins the queue. In a state that has no task nothing is done.
    pub fn complete(&mut self, outcome: Outcome)
        ensures
            final(self)@ == old(self)@.completed(outcome@),
    {
        match react(&self.state, &self.config) {
            Reaction::Perform(task) => {
                let event = conclude(&task, outcome);
                let ghost value = event@;
                self.events.push_back(event);
                assert(event_views(self.events@) =~= event_views(old(self).events@).push(value));
            },
            _ => {},
        }
    }

    /// One turn of the driving loop, at time `now`. Where an event waits and
    /// the run has not failed, the first event is consumed and the state
    /// moves by the transition table: into `Failure`, and the loop halts
    /// whatever still waits, or into a state to react to. Else nothing is
    /// changed and the loop is over.
    pub fn drive(&mut self, now: Timestamp) -> (r: Turn)
        ensures
            old(self)@.is_over() ==> r == Turn::Over && final(self)@ == old(self)@,
            !old(self)@.is_over() ==> final(self)@ == old(self)@.turned(now),
            !old(self)@.is_over() ==> r == (if final(self)@.state is Failure {
                Turn::Halt
            } else {
                Turn::Proceed
            }),
    {
        if self.state.is_failure() {
            return Turn::Over;
        }
        match self.events.pop_front() {
            None => Turn::Over,
            Some(event) => {
                assert(event_views(self.events@) =~= event_views(old(self).events@).skip(1));
                let state = self.state.next(event, now);
                self.state = state;
                if self.state.is_failure() {
                    Turn::Halt
                } else {
                    Turn::Proceed
                }
            },
        }
    }

    /// The two parts of the message that publishes a state: the topic, then
    /// the serialized state.
    pub fn frame(&self, serialized: String) -> (r: Vec<String>)
        ensures
            texts(r@) == framed(self@.config.topic, serialized@),
    {
        let mut parts = Vec::new();
        parts.push(self.config.topic.clone());
        parts.push(serialized);
        assert(texts(parts@) =~= framed(self@.config.topic, serialized@));
        parts
    }
}

} // verus!
