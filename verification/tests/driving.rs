use geoingest::driver::{
    payload, Downloader, Driver, Importer, Outcome, PipelineConfig, Task, Turn,
};
use geoingest::error::Error;
use geoingest::run::{replay, Supply};
use geoingest::state::{Event, State};
use geoingest::time::{Duration, Timestamp};

fn text(s: &str) -> String {
    String::from(s)
}

fn at(secs: u64) -> Timestamp {
    Timestamp { secs_since_epoch: secs, nanos_since_epoch: 0 }
}

fn took(secs: u64) -> Duration {
    Duration { secs, nanos: 0 }
}

fn done(path: &str, secs: u64) -> Outcome {
    Outcome::Succeeded { path: text(path), elapsed: took(secs) }
}

fn failed(details: &str) -> Outcome {
    Outcome::Failed { error: Error::MiscError { details: text(details) } }
}

fn driver(data_source: &str, region: &str, index_type: &str) -> Driver {
    Driver::new(index_type, data_source, region, text("state"), 5555)
}

/// Runs the driving loop to its end. The turn number `n` is taken at time
/// `n`, and the tasks end with `outcomes`, in order. Returns what was
/// published and the tasks that were handed out.
fn play(driver: &mut Driver, outcomes: Vec<Outcome>) -> (Vec<State>, Vec<Task>) {
    let mut published = Vec::new();
    let mut tasks = Vec::new();
    let mut outcomes = outcomes.into_iter();
    let mut clock = 0;
    driver.start();
    loop {
        clock += 1;
        assert!(clock < 100, "the loop does not end");
        match driver.drive(at(clock)) {
            Turn::Over => break,
            Turn::Halt => {
                published.push(driver.state().clone());
                break;
            }
            Turn::Proceed => {
                published.push(driver.state().clone());
                if let Some(task) = driver.run() {
                    tasks.push(task);
                    driver.complete(outcomes.next().expect("an outcome for each task"));
                }
            }
        }
    }
    assert!(outcomes.next().is_none(), "an outcome was not asked for");
    (published, tasks)
}

fn names(states: &[State]) -> Vec<&'static str> {
    states.iter().map(|state| state.name()).collect()
}

#[test]
fn a_new_driver_is_idle_with_the_fixed_configuration() {
    let driver = Driver::new("admins", "osm", "ile-de-france", text("state"), 5555);
    assert_eq!(driver.state(), &State::NotAvailable);
    assert_eq!(driver.pending(), 0);
    assert_eq!(driver.endpoint(), "tcp://127.0.0.1:5555");
    assert_eq!(
        driver.config(),
        &PipelineConfig {
            index_type: text("admins"),
            data_source: text("osm"),
            region: text("ile-de-france"),
            working_dir: text("./work"),
            handlers_dir: text("/home/matt/lab/rust/kisio/mimirsbrunn"),
            cosmogony_dir: text("/home/matt/lab/rust/kisio/cosmogony"),
            index_endpoint: text("http://localhost:9200/"),
            topic: text("state"),
        }
    );
}

#[test]
fn the_endpoint_is_written_in_base_ten() {
    assert_eq!(Driver::new("a", "b", "c", text("t"), 0).endpoint(), "tcp://127.0.0.1:0");
    assert_eq!(Driver::new("a", "b", "c", text("t"), 9).endpoint(), "tcp://127.0.0.1:9");
    assert_eq!(Driver::new("a", "b", "c", text("t"), 10).endpoint(), "tcp://127.0.0.1:10");
    assert_eq!(Driver::new("a", "b", "c", text("t"), 65535).endpoint(), "tcp://127.0.0.1:65535");
    assert_eq!(
        Driver::new("a", "b", "c", text("t"), u32::MAX).endpoint(),
        "tcp://127.0.0.1:4294967295"
    );
}

#[test]
fn a_driver_can_be_made_from_a_configuration() {
    let config = PipelineConfig {
        index_type: text("streets"),
        data_source: text("osm"),
        region: text("corse"),
        working_dir: text("/tmp/w"),
        handlers_dir: text("/opt/mimir"),
        cosmogony_dir: text("/opt/cosmogony"),
        index_endpoint: text("http://search:9200/"),
        topic: text("progress"),
    };
    let driver = Driver::with_config(config.clone(), text("tcp://127.0.0.1:7000"));
    assert_eq!(driver.config(), &config);
    assert_eq!(driver.state(), &State::NotAvailable);
    assert_eq!(driver.pending(), 0);
    assert_eq!(driver.endpoint(), "tcp://127.0.0.1:7000");
}

#[test]
fn a_state_is_framed_under_the_topic() {
    let driver = driver("bano", "75", "addresses");
    assert_eq!(
        driver.frame(text("\"NotAvailable\"")),
        vec![text("state"), text("\"NotAvailable\"")]
    );
}

#[test]
fn a_turn_without_events_is_over() {
    let mut driver = driver("bano", "75", "addresses");
    assert_eq!(driver.drive(at(1)), Turn::Over);
    assert_eq!(driver.state(), &State::NotAvailable);
    assert_eq!(driver.pending(), 0);
}

#[test]
fn start_seeds_one_download() {
    let mut driver = driver("bano", "75", "addresses");
    driver.start();
    assert_eq!(driver.pending(), 1);
    assert_eq!(driver.drive(at(4)), Turn::Proceed);
    assert_eq!(driver.state(), &State::DownloadingInProgress { started_at: at(4) });
    assert_eq!(driver.pending(), 0);
}

#[test]
fn bano_success() {
    let mut driver = driver("bano", "75", "addresses");
    let (published, tasks) =
        play(&mut driver, vec![done("work/bano/bano-75.csv", 3), done("", 5), done("", 1)]);
    assert_eq!(
        published,
        vec![
            State::DownloadingInProgress { started_at: at(1) },
            State::Downloaded { file_path: text("work/bano/bano-75.csv"), duration: took(3) },
            State::IndexingInProgress { file_path: text("work/bano/bano-75.csv"), started_at: at(3) },
            State::Indexed { duration: took(5) },
            State::ValidationInProgress,
            State::Available,
        ]
    );
    assert_eq!(published.last(), Some(&State::Available));
    assert_eq!(driver.state(), &State::Available);
    assert_eq!(driver.pending(), 0);
    assert_eq!(
        tasks,
        vec![
            Task::Download {
                handler: Downloader::Bano,
                working_dir: text("./work"),
                region: text("75")
            },
            Task::Index {
                handler: Importer::Bano,
                handlers_dir: text("/home/matt/lab/rust/kisio/mimirsbrunn"),
                index_endpoint: text("http://localhost:9200/"),
                file_path: text("work/bano/bano-75.csv"),
            },
            Task::Settle { delay: Duration { secs: 1, nanos: 0 } },
        ]
    );
}

#[test]
fn unknown_source() {
    let mut driver = driver("geojson", "75", "addresses");
    let (published, tasks) = play(&mut driver, vec![]);
    assert_eq!(
        published,
        vec![
            State::DownloadingInProgress { started_at: at(1) },
            State::DownloadingError { details: text("don't know how to download geojson") },
            State::NotAvailable,
        ]
    );
    assert!(tasks.is_empty());
    assert_eq!(driver.pending(), 0);
}

#[test]
fn illegal_event_injection() {
    let mut driver = driver("bano", "75", "addresses");
    driver.start();
    driver.next(Event::Validate, at(1));
    assert_eq!(
        driver.state(),
        &State::Failure { message: text("Wrong state, event combination: NotAvailable Validate") }
    );
    assert_eq!(driver.pending(), 1);
    assert_eq!(driver.run(), None);
    assert_eq!(driver.pending(), 1);
    assert_eq!(driver.drive(at(2)), Turn::Over);
    assert_eq!(driver.pending(), 1);
    assert_eq!(
        driver.state(),
        &State::Failure { message: text("Wrong state, event combination: NotAvailable Validate") }
    );
}

#[test]
fn the_loop_halts_on_failure_whatever_waits() {
    let mut driver = driver("bano", "75", "addresses");
    driver.start();
    driver.start();
    assert_eq!(driver.drive(at(1)), Turn::Proceed);
    assert!(driver.run().is_some());
    driver.complete(done("f", 1));
    assert_eq!(driver.pending(), 2);
    assert_eq!(driver.drive(at(2)), Turn::Halt);
    assert_eq!(
        driver.state(),
        &State::Failure {
            message: text("Wrong state, event combination: DownloadingInProgress Download")
        }
    );
    assert_eq!(driver.pending(), 1);
    assert_eq!(driver.run(), None);
    driver.complete(done("g", 1));
    assert_eq!(driver.pending(), 1);
    assert_eq!(driver.drive(at(3)), Turn::Over);
    assert_eq!(driver.pending(), 1);
}

#[test]
fn cosmogony_is_processed_before_it_is_indexed() {
    let mut driver = driver("cosmogony", "corse", "admins");
    let (published, tasks) = play(
        &mut driver,
        vec![done("work/osm/corse-latest.osm.pbf", 2), done("work/cosmogony/corse.json.gz", 7), done("", 4), done("", 1)],
    );
    assert_eq!(
        published,
        vec![
            State::DownloadingInProgress { started_at: at(1) },
            State::Downloaded { file_path: text("work/osm/corse-latest.osm.pbf"), duration: took(2) },
            State::ProcessingInProgress {
                file_path: text("work/osm/corse-latest.osm.pbf"),
                started_at: at(3)
            },
            State::Processed { file_path: text("work/cosmogony/corse.json.gz"), duration: took(7) },
            State::IndexingInProgress {
                file_path: text("work/cosmogony/corse.json.gz"),
                started_at: at(5)
            },
            State::Indexed { duration: took(4) },
            State::ValidationInProgress,
            State::Available,
        ]
    );
    let names = names(&published);
    let processing = names.iter().position(|name| *name == "ProcessingInProgress");
    let indexing = names.iter().position(|name| *name == "IndexingInProgress");
    assert!(processing.is_some() && processing < indexing);
    assert_eq!(
        tasks[0],
        Task::Download {
            handler: Downloader::Osm,
            working_dir: text("./work"),
            region: text("corse")
        }
    );
    assert_eq!(
        tasks[1],
        Task::Transform {
            cosmogony_dir: text("/home/matt/lab/rust/kisio/cosmogony"),
            working_dir: text("./work"),
            file_path: text("work/osm/corse-latest.osm.pbf"),
            region: text("corse"),
        }
    );
}

#[test]
fn other_sources_are_never_processed() {
    for source in ["bano", "osm", "ntfs"] {
        let mut driver = driver(source, "75", "admins");
        let (published, _) = play(&mut driver, vec![done("f", 1), done("", 1), done("", 1)]);
        assert_eq!(
            names(&published),
            vec![
                "DownloadingInProgress",
                "Downloaded",
                "IndexingInProgress",
                "Indexed",
                "ValidationInProgress",
                "Available",
            ]
        );
        let mut driver = driver_failing_index(source);
        let (published, _) = play(&mut driver, vec![done("f", 1), failed("x")]);
        assert!(names(&published).iter().all(|name| !name.starts_with("Process")));
    }
}

fn driver_failing_index(source: &str) -> Driver {
    driver(source, "75", "streets")
}

#[test]
fn a_successful_run_is_fixed_by_what_it_is_given() {
    let outcomes = || vec![done("f", 1), done("", 2), done("", 3)];
    let mut first = driver("ntfs", "fr-ne", "public_transport");
    let mut second = driver("ntfs", "fr-ne", "public_transport");
    let (a, _) = play(&mut first, outcomes());
    let (b, _) = play(&mut second, outcomes());
    assert_eq!(a, b);
    assert!(a.iter().all(|state| !state.is_failure()));
    assert_eq!(a.last(), Some(&State::Available));
}

#[test]
fn a_failed_download_resets_the_run() {
    let mut driver = driver("osm", "corse", "admins");
    let (published, _) = play(&mut driver, vec![failed("=> no network")]);
    assert_eq!(
        published,
        vec![
            State::DownloadingInProgress { started_at: at(1) },
            State::DownloadingError {
                details: text("Could not download: Miscellaneous Error => no network")
            },
            State::NotAvailable,
        ]
    );
}

#[test]
fn a_failed_transformation_resets_the_run() {
    let mut driver = driver("cosmogony", "corse", "admins");
    let (published, _) = play(&mut driver, vec![done("f", 1), failed("=> bad extract")]);
    assert_eq!(
        names(&published),
        vec![
            "DownloadingInProgress",
            "Downloaded",
            "ProcessingInProgress",
            "ProcessingError",
            "NotAvailable",
        ]
    );
    assert_eq!(
        published[3],
        State::ProcessingError {
            details: text("Could not process: Miscellaneous Error => bad extract")
        }
    );
}

#[test]
fn a_failed_indexing_resets_the_run() {
    let mut driver = driver("bano", "75", "addresses");
    let (published, _) = play(&mut driver, vec![done("f", 1), failed("=> refused")]);
    assert_eq!(
        names(&published),
        vec![
            "DownloadingInProgress",
            "Downloaded",
            "IndexingInProgress",
            "IndexingError",
            "NotAvailable",
        ]
    );
    assert_eq!(
        published[3],
        State::IndexingError { details: text("Could not index BANO: Miscellaneous Error => refused") }
    );
}

#[test]
fn a_failed_validation_resets_the_run() {
    let mut driver = driver("bano", "75", "addresses");
    let (published, _) = play(&mut driver, vec![done("f", 1), done("", 1), failed("not ready")]);
    assert_eq!(
        names(&published),
        vec![
            "DownloadingInProgress",
            "Downloaded",
            "IndexingInProgress",
            "Indexed",
            "ValidationInProgress",
            "ValidationError",
            "NotAvailable",
        ]
    );
    assert_eq!(
        published[5],
        State::ValidationError { details: text("Could not validate: Miscellaneous Error not ready") }
    );
}

#[test]
fn an_unsupported_index_type_stops_a_map_extract_at_indexing() {
    let mut driver = driver("osm", "corse", "addresses");
    let (published, tasks) = play(&mut driver, vec![done("f", 1)]);
    assert_eq!(
        published[2..].to_vec(),
        vec![
            State::IndexingInProgress { file_path: text("f"), started_at: at(3) },
            State::IndexingError { details: text("Could not index addresses using OSM") },
            State::NotAvailable,
        ]
    );
    assert_eq!(tasks.len(), 1);
}

#[test]
fn an_error_state_enqueues_exactly_one_reset() {
    let mut driver = driver("geojson", "75", "addresses");
    driver.start();
    assert_eq!(driver.drive(at(1)), Turn::Proceed);
    assert_eq!(driver.run(), None);
    assert_eq!(driver.drive(at(2)), Turn::Proceed);
    assert!(matches!(driver.state(), State::DownloadingError { .. }));
    assert_eq!(driver.pending(), 0);
    assert_eq!(driver.run(), None);
    assert_eq!(driver.pending(), 1);
    assert_eq!(driver.drive(at(3)), Turn::Proceed);
    assert_eq!(driver.state(), &State::NotAvailable);
    assert_eq!(driver.pending(), 0);
    assert_eq!(driver.run(), None);
    assert_eq!(driver.pending(), 0);
    assert_eq!(driver.drive(at(4)), Turn::Over);
}

#[test]
fn an_outcome_is_taken_only_where_a_task_is_due() {
    let mut driver = driver("bano", "75", "addresses");
    driver.complete(done("f", 1));
    assert_eq!(driver.pending(), 0);
    driver.start();
    assert_eq!(driver.drive(at(1)), Turn::Proceed);
    driver.complete(done("f", 1));
    assert_eq!(driver.pending(), 1);
    assert_eq!(driver.drive(at(2)), Turn::Proceed);
    assert_eq!(driver.state(), &State::Downloaded { file_path: text("f"), duration: took(1) });
    driver.complete(done("g", 1));
    assert_eq!(driver.pending(), 0);
}

#[test]
fn next_moves_the_state_and_leaves_the_queue() {
    let mut driver = driver("bano", "75", "addresses");
    driver.start();
    driver.next(Event::Download, at(9));
    assert_eq!(driver.state(), &State::DownloadingInProgress { started_at: at(9) });
    assert_eq!(driver.pending(), 1);
}

fn supplies(outcomes: Vec<Outcome>) -> Vec<Supply> {
    outcomes
        .into_iter()
        .enumerate()
        .map(|(turn, outcome)| Supply { now: at(turn as u64 + 1), outcome })
        .collect()
}

#[test]
fn a_replay_publishes_what_the_loop_publishes() {
    let mut played = driver("bano", "75", "addresses");
    let (published, _) =
        play(&mut played, vec![done("work/bano/bano-75.csv", 3), done("", 5), done("", 1)]);
    let mut replayed = driver("bano", "75", "addresses");
    replayed.start();
    let unused = || done("unused", 0);
    let trace = replay(
        &mut replayed,
        supplies(vec![
            done("work/bano/bano-75.csv", 3),
            unused(),
            done("", 5),
            unused(),
            done("", 1),
            unused(),
            unused(),
        ]),
    );
    assert_eq!(trace, published);
    assert_eq!(replayed.state(), &State::Available);
    assert_eq!(replayed.pending(), 0);
}

#[test]
fn a_replay_ends_with_its_supplies() {
    let mut driver = driver("bano", "75", "addresses");
    driver.start();
    let trace = replay(&mut driver, supplies(vec![done("f", 1), done("g", 2)]));
    assert_eq!(
        trace,
        vec![
            State::DownloadingInProgress { started_at: at(1) },
            State::Downloaded { file_path: text("f"), duration: took(1) },
        ]
    );
    assert_eq!(driver.state(), &State::Downloaded { file_path: text("f"), duration: took(1) });
    assert_eq!(driver.pending(), 1);
    assert_eq!(replay(&mut driver, vec![]), vec![]);
    assert_eq!(driver.pending(), 1);
}

#[test]
fn a_replay_halts_on_failure() {
    let mut driver = driver("bano", "75", "addresses");
    driver.start();
    driver.start();
    let trace = replay(&mut driver, supplies(vec![done("f", 1), done("g", 2), done("h", 3)]));
    assert_eq!(
        trace,
        vec![
            State::DownloadingInProgress { started_at: at(1) },
            State::Failure {
                message: text("Wrong state, event combination: DownloadingInProgress Download")
            },
        ]
    );
    assert_eq!(driver.pending(), 1);
    assert_eq!(replay(&mut driver, supplies(vec![done("i", 4)])), vec![]);
    assert_eq!(driver.pending(), 1);
}

#[test]
fn a_replay_of_a_run_with_failing_tasks_returns_to_idle() {
    let mut driver = driver("cosmogony", "corse", "admins");
    driver.start();
    let trace = replay(
        &mut driver,
        supplies(vec![done("f", 1), done("", 0), failed("=> bad"), done("", 0), done("", 0)]),
    );
    assert_eq!(
        names(&trace),
        vec![
            "DownloadingInProgress",
            "Downloaded",
            "ProcessingInProgress",
            "ProcessingError",
            "NotAvailable",
        ]
    );
    assert_eq!(driver.state(), &State::NotAvailable);
}

#[test]
fn the_payload_is_the_second_part_of_a_message() {
    assert_eq!(payload(&vec![text("state"), text("\"Available\"")]), Ok("\"Available\""));
    assert_eq!(payload(&vec![text("state"), text("a"), text("b")]), Ok("a"));
    let short = Err(Error::MiscError {
        details: text("Just one item in a multipart message. That is plain wrong!"),
    });
    assert_eq!(payload(&vec![text("state")]), short);
    assert_eq!(payload(&vec![]), short);
}

#[test]
fn what_was_framed_is_the_payload_of_the_frame() {
    let driver = driver("bano", "75", "addresses");
    let frame = driver.frame(text("{\"Indexed\":{}}"));
    assert_eq!(payload(&frame), Ok("{\"Indexed\":{}}"));
}
