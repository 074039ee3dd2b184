//! A whole run of the driving loop, as the sequence of states it publishes,
//! and what holds of every run.

use crate::driver::{
    follow_up, importer_of, reaction, source_of, Driver, DriverView, Outcome, OutcomeView,
    ReactionView, Source, Turn,
};
use crate::state::{next, EventView, State, StateView};
use crate::time::Timestamp;
use vstd::prelude::*;

verus! {

/// What the outside world supplies to one turn of the loop: the time at which
/// the turn is taken, and how the task of the new state ends if it has one.
#[derive(Clone, Debug, PartialEq, Eq)]
pub struct Supply {
    pub now: Timestamp,
    pub outcome: Outcome,
}

/// The mathematical value of a [`Supply`].
pub struct SupplyView {
    pub now: Timestamp,
    pub outcome: OutcomeView,
}

impl View for Supply {
    type V = SupplyView;

    open spec fn view(&self) -> SupplyView {
        SupplyView { now: self.now, outcome: self.outcome@ }
    }
}

/// The values of the supplies of a list, in order.
pub open spec fn supply_views(list: Seq<Supply>) -> Seq<SupplyView> {
    list.map_values(|supply: Supply| supply@)
}

/// The values of the states of a list, in order.
pub open spec fn state_views(list: Seq<State>) -> Seq<StateView> {
    list.map_values(|state: State| state@)
}

/// The states that the driving loop publishes from `driver` on, where the
/// turns are supplied by `supplies` in order. The loop ends when no event
/// waits, when the run fails, or when the supplies are used up.
pub open spec fn published(driver: DriverView, supplies: Seq<SupplyView>) -> Seq<StateView>
    decreases supplies.len(),
{
    if driver.is_over() || supplies.len() == 0 {
        Seq::empty()
    } else {
        let turned = driver.turned(supplies[0].now);
        if turned.state is Failure {
            seq![turned.state]
        } else {
            seq![turned.state] + published(turned.reacted(supplies[0].outcome), supplies.skip(1))
        }
    }
}

/// The driver as the driving loop leaves it, where the turns are supplied by
/// `supplies` in order.
pub open spec fn settled(driver: DriverView, supplies: Seq<SupplyView>) -> DriverView
    decreases supplies.len(),
{
    if driver.is_over() || supplies.len() == 0 {
        driver
    } else {
        let turned = driver.turned(supplies[0].now);
        if turned.state is Failure {
            turned
        } else {
            settled(turned.reacted(supplies[0].outcome), supplies.skip(1))
        }
    }
}

/// Runs the driving loop on `driver` with what `supplies` holds in place of
/// the outside world: the turns are taken at the times supplied, and the
/// tasks end as supplied. Returns the states that the loop publishes.
pub fn replay(driver: &mut Driver, supplies: Vec<Supply>) -> (r: Vec<State>)
    ensures
        state_views(r@) == published(old(driver)@, supply_views(supplies@)),
        final(driver)@ == settled(old(driver)@, supply_views(supplies@)),
{
    let ghost first = driver@;
    let ghost all = supply_views(supplies@);
    let mut rest = supplies;
    let mut trace: Vec<State> = Vec::new();
    let mut over = false;
    assert(state_views(trace@) + published(first, all) =~= published(first, all));
    while !over && rest.len() > 0
        invariant
            published(first, all) == state_views(trace@) + (if over {
                Seq::<StateView>::empty()
            } else {
                published(driver@, supply_views(rest@))
            }),
            settled(first, all) == (if over {
                driver@
            } else {
                settled(driver@, supply_views(rest@))
            }),
        decreases rest.len(),
    {
        let ghost ahead = supply_views(rest@);
        let ghost shown = state_views(trace@);
        let supply = rest.remove(0);
        assert(supply_views(rest@) =~= ahead.skip(1));
        assert(ahead[0] == supply@);
        match driver.drive(supply.now) {
            Turn::Over => {
                over = true;
            },
            Turn::Halt => {
                trace.push(driver.state().clone());
                assert(state_views(trace@) =~= shown + seq![driver@.state]);
                over = true;
            },
            Turn::Proceed => {
                trace.push(driver.state().clone());
                assert(state_views(trace@) =~= shown + seq![driver@.state]);
                let ghost turned = driver@;
                if let Some(_task) = driver.run() {
                    driver.complete(supply.outcome);
                }
                assert(driver@ == turned.reacted(supply@.outcome));
                assert(shown + (seq![turned.state] + published(driver@, ahead.skip(1)))
                    =~= state_views(trace@) + published(driver@, ahead.skip(1)));
            },
        }
    }
    assert(state_views(trace@) + Seq::<StateView>::empty() =~= state_views(trace@));
    trace
}

/// Whether a driver is at the start of a run: in `NotAvailable`, with
/// `Download` as the one event that waits.
pub open spec fn seeded(driver: DriverView) -> bool {
    driver.state == StateView::NotAvailable && driver.events == seq![EventView::Download]
}

/// Whether every task of a run succeeds.
pub open spec fn all_succeed(supplies: Seq<SupplyView>) -> bool {
    forall|i: int| 0 <= i < supplies.len() ==> (#[trigger] supplies[i]).outcome is Succeeded
}

/// Whether a state belongs to the processing step.
pub open spec fn is_processing(state: StateView) -> bool {
    state is ProcessingInProgress || state is ProcessingError || state is Processed
}

/// Whether `ProcessingInProgress` stands in `trace` before position `j`.
pub open spec fn processing_before(trace: Seq<StateView>, j: int) -> bool {
    exists|i: int| 0 <= i < j && i < trace.len() && (#[trigger] trace[i]) is ProcessingInProgress
}

/// `Failure` is absorbing: the reaction to it is to do nothing, no event
/// follows it, and the loop publishes nothing from a failed driver on,
/// whatever waits in its queue.
pub proof fn law_failure_is_absorbing(
    driver: DriverView,
    supplies: Seq<SupplyView>,
    outcome: OutcomeView,
)
    requires
        driver.state is Failure,
    ensures
        reaction(driver.state, driver.config) == ReactionView::Idle,
        follow_up(driver.state, driver.config, outcome) is None,
        driver.reacted(outcome) == driver,
        published(driver, supplies) == Seq::<StateView>::empty(),
{
}

/// The loop halts on `Failure`: a published `Failure` is the last state that
/// the run publishes.
pub proof fn law_failure_is_published_last(driver: DriverView, supplies: Seq<SupplyView>, i: int)
    requires
        0 <= i < published(driver, supplies).len(),
        published(driver, supplies)[i] is Failure,
    ensures
        i == published(driver, supplies).len() - 1,
    decreases supplies.len(),
{
    let turned = driver.turned(supplies[0].now);
    if !(turned.state is Failure) {
        law_failure_is_published_last(
            turned.reacted(supplies[0].outcome),
            supplies.skip(1),
            i - 1,
        );
    }
}

/// An error state heals itself: it calls for no task, its reaction puts
/// exactly one event into the queue, `Reset`, and `Reset` leads from it to
/// `NotAvailable`.
pub proof fn law_error_states_reset(driver: DriverView, outcome: OutcomeView, now: Timestamp)
    requires
        driver.state.is_error(),
    ensures
        driver.task() is None,
        driver.ran().events == driver.events.push(EventView::Reset),
        driver.reacted(outcome).events == driver.events.push(EventView::Reset),
        next(driver.state, EventView::Reset, now) == StateView::NotAvailable,
{
}

/// The loop never rests in an error state: where an event waits in every
/// error state before the loop, the loop leaves the driver with an event
/// waiting if it leaves it in an error state.
pub proof fn law_error_states_never_rest(driver: DriverView, supplies: Seq<SupplyView>)
    requires
        driver.state.is_error() ==> driver.events.len() > 0,
    ensures
        settled(driver, supplies).state.is_error() ==> settled(driver, supplies).events.len() > 0,
    decreases supplies.len(),
{
    if !(driver.is_over() || supplies.len() == 0) {
        let turned = driver.turned(supplies[0].now);
        if !(turned.state is Failure) {
            law_error_states_never_rest(turned.reacted(supplies[0].outcome), supplies.skip(1));
        }
    }
}

/// The states that a successful run publishes for a source whose download is
/// indexed as it is, in terms of what was supplied to its turns.
pub open spec fn direct_run(supplies: Seq<SupplyView>) -> Seq<StateView>
    recommends
        supplies.len() >= 6,
        all_succeed(supplies),
{
    seq![
        StateView::DownloadingInProgress { started_at: supplies[0].now },
        StateView::Downloaded {
            file_path: supplies[0].outcome->path,
            duration: supplies[0].outcome->elapsed,
        },
        StateView::IndexingInProgress {
            file_path: supplies[0].outcome->path,
            started_at: supplies[2].now,
        },
        StateView::Indexed { duration: supplies[2].outcome->elapsed },
        StateView::ValidationInProgress,
        StateView::Available,
    ]
}

/// The states that a successful run publishes for the source whose download
/// is processed before it is indexed, in terms of what was supplied to its
/// turns.
pub open spec fn processed_run(supplies: Seq<SupplyView>) -> Seq<StateView>
    recommends
        supplies.len() >= 8,
        all_succeed(supplies),
{
    seq![
        StateView::DownloadingInProgress { started_at: supplies[0].now },
        StateView::Downloaded {
            file_path: supplies[0].outcome->path,
            duration: supplies[0].outcome->elapsed,
        },
        StateView::ProcessingInProgress {
            file_path: supplies[0].outcome->path,
            started_at: supplies[2].now,
        },
        StateView::Processed {
            file_path: supplies[2].outcome->path,
            duration: supplies[2].outcome->elapsed,
        },
        StateView::IndexingInProgress {
            file_path: supplies[2].outcome->path,
            started_at: supplies[4].now,
        },
        StateView::Indexed { duration: supplies[4].outcome->elapsed },
        StateView::ValidationInProgress,
        StateView::Available,
    ]
}

proof fn lemma_turn(driver: DriverView, supplies: Seq<SupplyView>)
    requires
        !driver.is_over(),
        supplies.len() > 0,
        !(driver.turned(supplies[0].now).state is Failure),
    ensures
        published(driver, supplies) == seq![driver.turned(supplies[0].now).state] + published(
            driver.turned(supplies[0].now).reacted(supplies[0].outcome),
            supplies.skip(1),
        ),
{
}

/// A run whose tasks all succeed completes: from the start of a run, for a
/// data source that has a handler which can index the index type, the
/// published states are fixed by what was supplied, none of them is
/// `Failure`, and the last one is `Available`.
pub proof fn law_successful_run_completes(driver: DriverView, supplies: Seq<SupplyView>)
    requires
        seeded(driver),
        all_succeed(supplies),
        source_of(driver.config.data_source) matches Some(source) && importer_of(
            source,
            driver.config.index_type,
        ) is Some,
        supplies.len() >= (if source_of(driver.config.data_source) == Some(Source::Cosmogony) {
            8int
        } else {
            6int
        }),
    ensures
        published(driver, supplies) == if source_of(driver.config.data_source) == Some(
            Source::Cosmogony,
        ) {
            processed_run(supplies)
        } else {
            direct_run(supplies)
        },
        published(driver, supplies).last() == StateView::Available,
        forall|i: int|
            0 <= i < published(driver, supplies).len() ==> !(#[trigger] published(
                driver,
                supplies,
            )[i] is Failure),
{
    let s0 = supplies;
    let d0 = driver;
    lemma_turn(d0, s0);
    let d1 = d0.turned(s0[0].now).reacted(s0[0].outcome);
    let s1 = s0.skip(1);
    assert(d1.events =~= seq![
        EventView::DownloadingComplete(s0[0].outcome->path, s0[0].outcome->elapsed),
    ]);
    lemma_turn(d1, s1);
    let d2 = d1.turned(s1[0].now).reacted(s1[0].outcome);
    let s2 = s1.skip(1);
    if source_of(driver.config.data_source) == Some(Source::Cosmogony) {
        assert(d2.events =~= seq![EventView::Process(s0[0].outcome->path)]);
        lemma_turn(d2, s2);
        let d3 = d2.turned(s2[0].now).reacted(s2[0].outcome);
        let s3 = s2.skip(1);
        assert(d3.events =~= seq![
            EventView::ProcessingComplete(s0[2].outcome->path, s0[2].outcome->elapsed),
        ]);
        lemma_turn(d3, s3);
        let d4 = d3.turned(s3[0].now).reacted(s3[0].outcome);
        let s4 = s3.skip(1);
        assert(d4.events =~= seq![EventView::Index(s0[2].outcome->path)]);
        lemma_turn(d4, s4);
        let d5 = d4.turned(s4[0].now).reacted(s4[0].outcome);
        let s5 = s4.skip(1);
        assert(d5.events =~= seq![EventView::IndexingComplete(s0[4].outcome->elapsed)]);
        lemma_turn(d5, s5);
        let d6 = d5.turned(s5[0].now).reacted(s5[0].outcome);
        let s6 = s5.skip(1);
        assert(d6.events =~= seq![EventView::Validate]);
        lemma_turn(d6, s6);
        let d7 = d6.turned(s6[0].now).reacted(s6[0].outcome);
        let s7 = s6.skip(1);
        assert(d7.events =~= seq![EventView::ValidationComplete]);
        lemma_turn(d7, s7);
        let d8 = d7.turned(s7[0].now).reacted(s7[0].outcome);
        assert(d8.events =~= Seq::<EventView>::empty());
        assert(published(d8, s7.skip(1)) =~= Seq::<StateView>::empty());
        assert(published(driver, supplies) =~= processed_run(supplies));
    } else {
        assert(d2.events =~= seq![EventView::Index(s0[0].outcome->path)]);
        lemma_turn(d2, s2);
        let d3 = d2.turned(s2[0].now).reacted(s2[0].outcome);
        let s3 = s2.skip(1);
        assert(d3.events =~= seq![EventView::IndexingComplete(s0[2].outcome->elapsed)]);
        lemma_turn(d3, s3);
        let d4 = d3.turned(s3[0].now).reacted(s3[0].outcome);
        let s4 = s3.skip(1);
        assert(d4.events =~= seq![EventView::Validate]);
        lemma_turn(d4, s4);
        let d5 = d4.turned(s4[0].now).reacted(s4[0].outcome);
        let s5 = s4.skip(1);
        assert(d5.events =~= seq![EventView::ValidationComplete]);
        lemma_turn(d5, s5);
        let d6 = d5.turned(s5[0].now).reacted(s5[0].outcome);
        assert(d6.events =~= Seq::<EventView>::empty());
        assert(published(d6, s5.skip(1)) =~= Seq::<StateView>::empty());
        assert(published(driver, supplies) =~= direct_run(supplies));
    }
}

spec fn is_processing_event(event: EventView) -> bool {
    event is Process || event is ProcessingError || event is ProcessingComplete
}

spec fn free_of_processing(driver: DriverView) -> bool {
    &&& !is_processing(driver.state)
    &&& forall|k: int|
        0 <= k < driver.events.len() ==> !is_processing_event(#[trigger] driver.events[k])
}

proof fn lemma_never_processes(driver: DriverView, supplies: Seq<SupplyView>, i: int)
    requires
        free_of_processing(driver),
        driver.config.data_source != "cosmogony"@,
        0 <= i < published(driver, supplies).len(),
    ensures
        !is_processing(published(driver, supplies)[i]),
    decreases supplies.len(),
{
    let turned = driver.turned(supplies[0].now);
    assert(!is_processing_event(driver.events[0]));
    if !(turned.state is Failure) && i > 0 {
        let reacted = turned.reacted(supplies[0].outcome);
        assert forall|k: int| 0 <= k < reacted.events.len() implies !is_processing_event(
            #[trigger] reacted.events[k],
        ) by {
            if k < turned.events.len() {
                assert(turned.events[k] == driver.events[k + 1]);
            }
        }
        lemma_never_processes(reacted, supplies.skip(1), i - 1);
    }
}

/// For any source but "cosmogony", no state of the processing step is ever
/// published, however the tasks of the run end.
pub proof fn law_other_sources_never_process(driver: DriverView, supplies: Seq<SupplyView>, i: int)
    requires
        seeded(driver),
        driver.config.data_source != "cosmogony"@,
        0 <= i < published(driver, supplies).len(),
    ensures
        !is_processing(published(driver, supplies)[i]),
{
    lemma_never_processes(driver, supplies, i);
}

spec fn ahead_of_processing(driver: DriverView) -> bool {
    &&& !(driver.state is ProcessingInProgress)
    &&& !(driver.state is Processed)
    &&& forall|k: int|
        0 <= k < driver.events.len() ==> !((#[trigger] driver.events[k]) is Index)
            && !(driver.events[k] is ProcessingComplete)
}

proof fn lemma_processing_comes_first(driver: DriverView, supplies: Seq<SupplyView>, j: int)
    requires
        ahead_of_processing(driver),
        driver.config.data_source == "cosmogony"@,
        0 <= j < published(driver, supplies).len(),
        published(driver, supplies)[j] is IndexingInProgress,
    ensures
        processing_before(published(driver, supplies), j),
    decreases supplies.len(),
{
    let trace = published(driver, supplies);
    let turned = driver.turned(supplies[0].now);
    assert(!(driver.events[0] is Index) && !(driver.events[0] is ProcessingComplete));
    if turned.state is ProcessingInProgress {
        assert(trace[0] is ProcessingInProgress);
    } else {
        let reacted = turned.reacted(supplies[0].outcome);
        let rest = published(reacted, supplies.skip(1));
        assert forall|k: int| 0 <= k < reacted.events.len() implies !((
        #[trigger] reacted.events[k]) is Index) && !(reacted.events[k] is ProcessingComplete) by {
            if k < turned.events.len() {
                assert(turned.events[k] == driver.events[k + 1]);
            }
        }
        lemma_processing_comes_first(reacted, supplies.skip(1), j - 1);
        let i = choose|i: int|
            0 <= i < j - 1 && i < rest.len() && (#[trigger] rest[i]) is ProcessingInProgress;
        assert(trace[i + 1] is ProcessingInProgress);
    }
}

/// For "cosmogony", boundaries are generated before anything is indexed:
/// wherever `IndexingInProgress` is published, `ProcessingInProgress` was
/// published before it, however the tasks of the run end.
pub proof fn law_cosmogony_processes_before_indexing(
    driver: DriverView,
    supplies: Seq<SupplyView>,
    j: int,
)
    requires
        seeded(driver),
        driver.config.data_source == "cosmogony"@,
        0 <= j < published(driver, supplies).len(),
        published(driver, supplies)[j] is IndexingInProgress,
    ensures
        processing_before(published(driver, supplies), j),
{
    lemma_processing_comes_first(driver, supplies, j);
}

} // verus!
