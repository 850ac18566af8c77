//! The single writer's decisions. The consumer owns the batcher and the
//! output destination; the caller receives records, appends row groups to the
//! sink and polls the cancellation flag, and reports each outcome as an event.
//! The consumer answers every event with the next action.

use vstd::prelude::*;
use crate::config::{abort_target, Destination};
use crate::layout::{lemma_groups_append, spec_row_groups};
use crate::record::{text_of, Row, UnzippedFile};
use crate::rowgroup::{Batcher, RowGroup};

verus! {

/// Where the consumer stands.
#[derive(Debug, Clone, Copy, PartialEq, Eq, Structural)]
pub enum Phase {
    /// Waiting for the next record.
    Receiving,
    /// A full row group is being appended; more records may follow.
    Flushing,
    /// The last row group is being appended; the relay is exhausted.
    FlushingLast,
    /// The output was told to close.
    Closed,
    /// The output was told to abort.
    Aborted,
}

/// What happened outside since the last action.
#[derive(Debug)]
pub enum Event {
    /// The relay delivered a record.
    Record(UnzippedFile),
    /// Every producer has gone and the relay is empty.
    Exhausted,
    /// The sink took the row group; `cancelled` is the cancellation flag as
    /// read after the append.
    Flushed { cancelled: bool },
    /// The sink failed to append or to close, or a producer failed.
    Failed,
}

/// What the caller has to do next.
#[derive(Debug)]
pub enum Action {
    /// Receive from the relay.
    Receive,
    /// Append this row group to the sink.
    Append(RowGroup),
    /// Close the sink: the output is complete.
    Close,
    /// Discard the output: drop the sink, and delete this file if there is one.
    Abort { delete: Option<String> },
    /// Nothing is left to do.
    Done,
}

/// An event as plain data.
pub enum EventView {
    Record(Row),
    Exhausted,
    Flushed { cancelled: bool },
    Failed,
}

/// An action as plain data.
pub enum ActionView {
    Receive,
    Append(Seq<Row>),
    Close,
    Abort { delete: Option<Seq<char>> },
    Done,
}

/// The consumer as plain data.
pub struct ConsumerView {
    pub phase: Phase,
    pub pending: Seq<Row>,
    pub capacity: nat,
    /// The output file, if the output is file-backed.
    pub destination: Option<Seq<char>>,
}

impl View for Event {
    type V = EventView;

    open spec fn view(&self) -> EventView {
        match self {
            Event::Record(record) => EventView::Record(record@),
            Event::Exhausted => EventView::Exhausted,
            Event::Flushed { cancelled } => EventView::Flushed { cancelled: *cancelled },
            Event::Failed => EventView::Failed,
        }
    }
}

impl View for Action {
    type V = ActionView;

    open spec fn view(&self) -> ActionView {
        match self {
            Action::Receive => ActionView::Receive,
            Action::Append(group) => ActionView::Append(group@),
            Action::Close => ActionView::Close,
            Action::Abort { delete } => ActionView::Abort { delete: text_of(*delete) },
            Action::Done => ActionView::Done,
        }
    }
}

/// The abort step: the consumer ends in `Aborted` and asks for the output
/// file, if there is one, to be deleted.
pub open spec fn spec_abort(state: ConsumerView) -> (ConsumerView, ActionView) {
    (
        ConsumerView { phase: Phase::Aborted, ..state },
        ActionView::Abort { delete: state.destination },
    )
}

/// The consumer's answer to one event: the next state and the action.
///
/// While receiving, a record joins the pending rows; the one that fills the
/// group sends the group to the sink. Exhaustion sends what is pending as the
/// last group, or closes when nothing is pending. After each append the
/// cancellation flag decides: set, the output is aborted; clear, the consumer
/// receives again, or closes after the last group. A failure, or an event
/// that cannot occur in the current phase, aborts. An aborted consumer stays
/// aborted and asks for nothing more.
pub open spec fn spec_step(state: ConsumerView, event: EventView) -> (ConsumerView, ActionView) {
    match state.phase {
        Phase::Aborted => (state, ActionView::Done),
        Phase::Closed => match event {
            EventView::Failed => spec_abort(state),
            _ => (state, ActionView::Done),
        },
        Phase::Receiving => match event {
            EventView::Record(row) => if state.pending.len() + 1 >= state.capacity {
                (
                    ConsumerView { phase: Phase::Flushing, pending: Seq::empty(), ..state },
                    ActionView::Append(state.pending.push(row)),
                )
            } else {
                (ConsumerView { pending: state.pending.push(row), ..state }, ActionView::Receive)
            },
            EventView::Exhausted => if state.pending.len() > 0 {
                (
                    ConsumerView { phase: Phase::FlushingLast, pending: Seq::empty(), ..state },
                    ActionView::Append(state.pending),
                )
            } else {
                (ConsumerView { phase: Phase::Closed, ..state }, ActionView::Close)
            },
            _ => spec_abort(state),
        },
        Phase::Flushing => match event {
            EventView::Flushed { cancelled } => if cancelled {
                spec_abort(state)
            } else {
                (ConsumerView { phase: Phase::Receiving, ..state }, ActionView::Receive)
            },
            _ => spec_abort(state),
        },
        Phase::FlushingLast => match event {
            EventView::Flushed { cancelled } => if cancelled {
                spec_abort(state)
            } else {
                (ConsumerView { phase: Phase::Closed, ..state }, ActionView::Close)
            },
            _ => spec_abort(state),
        },
    }
}

/// The state after a sequence of events.
pub open spec fn spec_run(state: ConsumerView, events: Seq<EventView>) -> ConsumerView
    decreases events.len(),
{
    if events.len() == 0 {
        state
    } else {
        spec_step(spec_run(state, events.drop_last()), events.last()).0
    }
}

/// The action that answers the last of a sequence of events.
pub open spec fn spec_last_action(state: ConsumerView, events: Seq<EventView>) -> ActionView
    recommends
        events.len() > 0,
{
    spec_step(spec_run(state, events.drop_last()), events.last()).1
}

/// The single consumer of the relay and the only caller of the sink.
#[derive(Debug)]
pub struct Consumer {
    batcher: Batcher,
    phase: Phase,
    destination: Destination,
}

impl View for Consumer {
    type V = ConsumerView;

    closed spec fn view(&self) -> ConsumerView {
        ConsumerView {
            phase: self.phase,
            pending: self.batcher.pending(),
            capacity: self.batcher.capacity(),
            destination: self.destination@,
        }
    }
}

impl Consumer {
    /// The batcher is well formed.
    pub closed spec fn wf(&self) -> bool {
        self.batcher.wf()
    }

    /// A consumer that is receiving, with nothing pending.
    pub fn new(destination: Destination, row_group_size: usize) -> (consumer: Consumer)
        requires
            row_group_size > 0,
        ensures
            consumer.wf(),
            consumer@ == (ConsumerView {
                phase: Phase::Receiving,
                pending: Seq::empty(),
                capacity: row_group_size as nat,
                destination: destination@,
            }),
    {
        Consumer { batcher: Batcher::new(row_group_size), phase: Phase::Receiving, destination }
    }

    /// Where the consumer stands.
    pub fn phase(&self) -> (phase: Phase)
        ensures
            phase == self@.phase,
    {
        self.phase
    }

    /// Ends in `Aborted` and asks for the output to be discarded.
    fn abort(&mut self) -> (action: Action)
        requires
            old(self).wf(),
        ensures
            final(self).wf(),
            (final(self)@, action@) == spec_abort(old(self)@),
    {
        self.phase = Phase::Aborted;
        Action::Abort { delete: abort_target(&self.destination) }
    }

    /// Answers one event with the next action.
    pub fn step(&mut self, event: Event) -> (action: Action)
        requires
            old(self).wf(),
        ensures
            final(self).wf(),
            (final(self)@, action@) == spec_step(old(self)@, event@),
            action matches Action::Append(group) ==> group.wf(),
    {
        proof {
            self.batcher.lemma_pending_below_capacity();
        }
        match self.phase {
            Phase::Aborted => Action::Done,
            Phase::Closed => match event {
                Event::Failed => self.abort(),
                _ => Action::Done,
            },
            Phase::Receiving => match event {
                Event::Record(record) => match self.batcher.push(record) {
                    Some(group) => {
                        self.phase = Phase::Flushing;
                        Action::Append(group)
                    },
                    None => Action::Receive,
                },
                Event::Exhausted => match self.batcher.flush() {
                    Some(group) => {
                        self.phase = Phase::FlushingLast;
                        Action::Append(group)
                    },
                    None => {
                        assert(old(self)@.pending =~= Seq::<Row>::empty());
                        self.phase = Phase::Closed;
                        Action::Close
                    },
                },
                _ => self.abort(),
            },
            Phase::Flushing => match event {
                Event::Flushed { cancelled } => if cancelled {
                    self.abort()
                } else {
                    self.phase = Phase::Receiving;
                    Action::Receive
                },
                _ => self.abort(),
            },
            Phase::FlushingLast => match event {
                Event::Flushed { cancelled } => if cancelled {
                    self.abort()
                } else {
                    self.phase = Phase::Closed;
                    Action::Close
                },
                _ => self.abort(),
            },
        }
    }
}

/// A set cancellation flag, seen after an append, aborts the output: the
/// consumer asks for the output file, if there is one, to be deleted, and
/// ends in `Aborted`.
pub proof fn lemma_cancellation_aborts(state: ConsumerView)
    requires
        state.phase is Flushing || state.phase is FlushingLast,
    ensures
        spec_step(state, EventView::Flushed { cancelled: true }).1 == (ActionView::Abort {
            delete: state.destination,
        }),
        spec_step(state, EventView::Flushed { cancelled: true }).0.phase is Aborted,
{
}

/// A failure aborts the output in every phase but `Aborted`.
pub proof fn lemma_failure_aborts(state: ConsumerView)
    requires
        !(state.phase is Aborted),
    ensures
        spec_step(state, EventView::Failed) == spec_abort(state),
{
}

/// An aborted consumer stays aborted whatever happens: it never asks for
/// another append, nor for the output to be closed.
pub proof fn lemma_abort_is_final(state: ConsumerView, events: Seq<EventView>)
    requires
        state.phase is Aborted,
    ensures
        spec_run(state, events) == state,
        events.len() > 0 ==> spec_last_action(state, events) == ActionView::Done,
    decreases events.len(),
{
    if events.len() > 0 {
        lemma_abort_is_final(state, events.drop_last());
    }
}

/// Once a set cancellation flag was seen on an output that was not yet
/// closed, the run ends aborted, whatever happens afterwards.
pub proof fn lemma_seen_cancellation_ends_aborted(
    state: ConsumerView,
    events: Seq<EventView>,
    at: int,
    upto: int,
)
    requires
        0 <= at < upto <= events.len(),
        events[at] == (EventView::Flushed { cancelled: true }),
        !(spec_run(state, events.take(at)).phase is Closed),
    ensures
        spec_run(state, events.take(upto)).phase is Aborted,
        spec_run(state, events.take(upto)).destination == spec_run(
            state,
            events.take(at),
        ).destination,
    decreases upto - at,
{
    assert(events.take(upto).drop_last() =~= events.take(upto - 1));
    assert(events.take(upto).last() == events[upto - 1]);
    if upto > at + 1 {
        lemma_seen_cancellation_ends_aborted(state, events, at, upto - 1);
    }
}

/// The output is told to close only once the relay is exhausted and every
/// append was followed by a clear cancellation flag.
pub proof fn lemma_close_needs_clear_flag(state: ConsumerView, event: EventView)
    requires
        spec_step(state, event).1 == ActionView::Close,
    ensures
        event == EventView::Exhausted || event == (EventView::Flushed { cancelled: false }),
        event == EventView::Exhausted ==> state.phase is Receiving && state.pending.len() == 0,
        event == (EventView::Flushed { cancelled: false }) ==> state.phase is FlushingLast,
{
}

/// The state in which a run starts: receiving, with nothing pending.
pub open spec fn spec_start(destination: Option<Seq<char>>, capacity: nat) -> ConsumerView {
    ConsumerView { phase: Phase::Receiving, pending: Seq::empty(), capacity, destination }
}

/// The state after `rows` were delivered one by one, and the row groups
/// that were appended on the way, each append being followed by a clear
/// cancellation flag.
pub open spec fn spec_feed(state: ConsumerView, rows: Seq<Row>) -> (ConsumerView, Seq<Seq<Row>>)
    decreases rows.len(),
{
    if rows.len() == 0 {
        (state, Seq::empty())
    } else {
        let (before, groups) = spec_feed(state, rows.drop_last());
        let (next, action) = spec_step(before, EventView::Record(rows.last()));
        match action {
            ActionView::Append(group) => (
                spec_step(next, EventView::Flushed { cancelled: false }).0,
                groups.push(group),
            ),
            _ => (next, groups),
        }
    }
}

/// The end of a run: the state after the relay was exhausted, the row group
/// appended then, if any, and the last action, the append being followed by
/// a clear cancellation flag.
pub open spec fn spec_drain(state: ConsumerView) -> (ConsumerView, Seq<Seq<Row>>, ActionView) {
    let (next, action) = spec_step(state, EventView::Exhausted);
    match action {
        ActionView::Append(group) => {
            let (last, closing) = spec_step(next, EventView::Flushed { cancelled: false });
            (last, seq![group], closing)
        },
        _ => (next, Seq::empty(), action),
    }
}

/// While records are delivered and no cancellation is seen, the consumer
/// keeps receiving, and what it has appended and what it holds are together
/// the rows delivered: full groups first, then the pending rows.
pub proof fn lemma_feed_appends_full_groups(
    destination: Option<Seq<char>>,
    capacity: nat,
    rows: Seq<Row>,
)
    requires
        capacity > 0,
    ensures
        ({
            let (state, groups) = spec_feed(spec_start(destination, capacity), rows);
            &&& state.phase is Receiving
            &&& state.capacity == capacity
            &&& state.destination == destination
            &&& state.pending.len() < capacity
            &&& groups.flatten().len() == groups.len() * capacity
            &&& groups == spec_row_groups(groups.flatten(), capacity)
            &&& groups.flatten() + state.pending == rows
        }),
    decreases rows.len(),
{
    let start = spec_start(destination, capacity);
    if rows.len() == 0 {
        assert(Seq::<Seq<Row>>::empty().flatten() =~= Seq::<Row>::empty());
        assert(spec_row_groups(Seq::<Row>::empty(), capacity) =~= Seq::<Seq<Row>>::empty());
        assert(Seq::<Row>::empty() + start.pending =~= rows);
    } else {
        lemma_feed_appends_full_groups(destination, capacity, rows.drop_last());
        let (before, groups) = spec_feed(start, rows.drop_last());
        let done = groups.flatten();
        assert(rows =~= rows.drop_last().push(rows.last()));
        if before.pending.len() + 1 >= capacity {
            let group = before.pending.push(rows.last());
            lemma_groups_append(done, group, capacity, groups.len());
            groups.lemma_flatten_push(group);
            assert((groups.len() + 1) * capacity == groups.len() * capacity + capacity)
                by (nonlinear_arith);
            assert(done + group + Seq::<Row>::empty() =~= rows);
        } else {
            assert(done + before.pending.push(rows.last()) =~= rows);
        }
    }
}

/// A run that sees no cancellation and no failure writes every record
/// exactly once: the row groups appended are those that the records are cut
/// into, in arrival order, and the run ends by closing the output.
pub proof fn lemma_uncancelled_run_writes_every_row(
    destination: Option<Seq<char>>,
    capacity: nat,
    rows: Seq<Row>,
)
    requires
        capacity > 0,
    ensures
        ({
            let (state, groups) = spec_feed(spec_start(destination, capacity), rows);
            let (end, last, closing) = spec_drain(state);
            &&& groups + last == spec_row_groups(rows, capacity)
            &&& closing == ActionView::Close
            &&& end.phase is Closed
        }),
{
    lemma_feed_appends_full_groups(destination, capacity, rows);
    let (state, groups) = spec_feed(spec_start(destination, capacity), rows);
    let done = groups.flatten();
    if state.pending.len() > 0 {
        lemma_groups_append(done, state.pending, capacity, groups.len());
        assert(groups + seq![state.pending] =~= groups.push(state.pending));
    } else {
        assert(done + state.pending =~= done);
        assert(groups + Seq::<Seq<Row>>::empty() =~= groups);
    }
}

} // verus!
