//! One archive task's decisions. The caller opens the archive, fetches each
//! entry, reads content, sends records into the relay and polls the
//! cancellation flag, and reports each outcome as an event. The producer
//! answers every event with the next action.

use vstd::prelude::*;
use crate::config::Args;
use crate::error::Error;
use crate::filter::{
    check_filter, filter_is_valid, name_selected, plan_for, select_entry, spec_is_filter_error,
    spec_plan, EntryPlan,
};
use crate::pipeline::{spec_extract, Entry};
use crate::record::{spec_record, spec_source, text_of, Row, UnzippedFile};

verus! {

/// Where the producer stands.
#[derive(Debug, Clone, Copy, PartialEq, Eq, Structural)]
pub enum ProducerPhase {
    /// Between two entries: the cancellation flag is read next.
    Polling,
    /// The next entry is being fetched.
    Opening,
    /// The content of the current entry is being read.
    Reading,
    /// The record of the current entry is being sent.
    Sending,
    /// Every entry was handled.
    Finished,
    /// The cancellation flag was seen set.
    Stopped,
    /// The archive task failed.
    Failed,
}

/// What happened outside since the last action.
#[derive(Debug)]
pub enum ProducerEvent {
    /// The cancellation flag was read.
    Polled { cancelled: bool },
    /// The entry was fetched: its name, and whether it is a directory.
    Opened { name: String, is_dir: bool },
    /// The content of the entry was read in full.
    Read(Vec<u8>),
    /// The relay took the record.
    Sent,
    /// The archive or the entry could not be read, or the relay is closed.
    Failed,
}

/// What the caller has to do next.
#[derive(Debug)]
pub enum ProducerAction {
    /// Read the cancellation flag.
    Poll,
    /// Fetch the entry at this index.
    Open(usize),
    /// Read the content of the entry at this index.
    Read(usize),
    /// Send this record into the relay.
    Send(UnzippedFile),
    /// Leave: the archive is done.
    Finish,
    /// Leave without sending anything more: the run is cancelled.
    Stop,
    /// Leave and raise the cancellation flag: the archive task failed.
    Fail,
    /// Nothing is left to do.
    Done,
}

/// An event as plain data.
pub enum ProducerEventView {
    Polled { cancelled: bool },
    Opened { name: Seq<char>, is_dir: bool },
    Read(Seq<u8>),
    Sent,
    Failed,
}

/// An action as plain data.
pub enum ProducerActionView {
    Poll,
    Open(nat),
    Read(nat),
    Send(Row),
    Finish,
    Stop,
    Fail,
    Done,
}

/// The producer as plain data.
pub struct ProducerView {
    pub args: Args,
    /// The path of the archive, as it was supplied.
    pub path: Seq<char>,
    /// The number of entries of the archive.
    pub entries: nat,
    /// The index of the current entry: the number of entries handled.
    pub index: nat,
    pub phase: ProducerPhase,
    /// The name of the entry whose content is being read.
    pub reading: Seq<char>,
}

impl View for ProducerEvent {
    type V = ProducerEventView;

    open spec fn view(&self) -> ProducerEventView {
        match self {
            ProducerEvent::Polled { cancelled } => ProducerEventView::Polled {
                cancelled: *cancelled,
            },
            ProducerEvent::Opened { name, is_dir } => ProducerEventView::Opened {
                name: name@,
                is_dir: *is_dir,
            },
            ProducerEvent::Read(content) => ProducerEventView::Read(content@),
            ProducerEvent::Sent => ProducerEventView::Sent,
            ProducerEvent::Failed => ProducerEventView::Failed,
        }
    }
}

impl View for ProducerAction {
    type V = ProducerActionView;

    open spec fn view(&self) -> ProducerActionView {
        match self {
            ProducerAction::Poll => ProducerActionView::Poll,
            ProducerAction::Open(index) => ProducerActionView::Open(*index as nat),
            ProducerAction::Read(index) => ProducerActionView::Read(*index as nat),
            ProducerAction::Send(record) => ProducerActionView::Send(record@),
            ProducerAction::Finish => ProducerActionView::Finish,
            ProducerAction::Stop => ProducerActionView::Stop,
            ProducerAction::Fail => ProducerActionView::Fail,
            ProducerAction::Done => ProducerActionView::Done,
        }
    }
}

/// The failure step: the producer ends in `Failed`.
pub open spec fn spec_fail(state: ProducerView) -> (ProducerView, ProducerActionView) {
    (ProducerView { phase: ProducerPhase::Failed, ..state }, ProducerActionView::Fail)
}

/// The producer's answer to one event: the next state and the action.
///
/// Between entries the cancellation flag decides: set, the producer stops
/// and sends nothing more; clear, it fetches the next entry, or finishes
/// when none is left. A fetched entry is skipped when it is a directory or
/// its name does not pass the filter; else its record is sent, after its
/// content was read unless neither body nor hash is wanted. Entries are
/// taken in the archive's own order. A failure, or an event that cannot
/// occur in the current phase, fails the task. A producer that finished,
/// stopped or failed asks for nothing more.
pub open spec fn spec_produce(state: ProducerView, event: ProducerEventView) -> (
    ProducerView,
    ProducerActionView,
) {
    match state.phase {
        ProducerPhase::Finished | ProducerPhase::Stopped | ProducerPhase::Failed => (
            state,
            ProducerActionView::Done,
        ),
        ProducerPhase::Polling => match event {
            ProducerEventView::Polled { cancelled } => if cancelled {
                (ProducerView { phase: ProducerPhase::Stopped, ..state }, ProducerActionView::Stop)
            } else if state.index < state.entries {
                (
                    ProducerView { phase: ProducerPhase::Opening, ..state },
                    ProducerActionView::Open(state.index),
                )
            } else {
                (
                    ProducerView { phase: ProducerPhase::Finished, ..state },
                    ProducerActionView::Finish,
                )
            },
            _ => spec_fail(state),
        },
        ProducerPhase::Opening => match event {
            ProducerEventView::Opened { name, is_dir } => match spec_plan(
                state.args,
                is_dir,
                name_selected(text_of(state.args.glob), name),
            ) {
                EntryPlan::Skip => (
                    ProducerView {
                        phase: ProducerPhase::Polling,
                        index: state.index + 1,
                        ..state
                    },
                    ProducerActionView::Poll,
                ),
                EntryPlan::EmitUnread => (
                    ProducerView { phase: ProducerPhase::Sending, ..state },
                    ProducerActionView::Send(
                        Row {
                            name,
                            source: spec_source(state.args, state.path),
                            body: None,
                            hash: None,
                        },
                    ),
                ),
                EntryPlan::ReadContent => (
                    ProducerView { phase: ProducerPhase::Reading, reading: name, ..state },
                    ProducerActionView::Read(state.index),
                ),
            },
            _ => spec_fail(state),
        },
        ProducerPhase::Reading => match event {
            ProducerEventView::Read(content) => (
                ProducerView { phase: ProducerPhase::Sending, reading: Seq::empty(), ..state },
                ProducerActionView::Send(
                    spec_record(state.args, state.path, state.reading, content),
                ),
            ),
            _ => spec_fail(state),
        },
        ProducerPhase::Sending => match event {
            ProducerEventView::Sent => (
                ProducerView { phase: ProducerPhase::Polling, index: state.index + 1, ..state },
                ProducerActionView::Poll,
            ),
            _ => spec_fail(state),
        },
    }
}

/// One archive task: the producer of the records of one archive.
#[derive(Debug)]
pub struct Producer {
    args: Args,
    path: String,
    entries: usize,
    index: usize,
    phase: ProducerPhase,
    reading: String,
}

impl View for Producer {
    type V = ProducerView;

    closed spec fn view(&self) -> ProducerView {
        ProducerView {
            args: self.args,
            path: self.path@,
            entries: self.entries as nat,
            index: self.index as nat,
            phase: self.phase,
            reading: self.reading@,
        }
    }
}

/// The state in which an archive task starts: between entries, before the
/// first.
pub open spec fn spec_producer_start(args: Args, path: Seq<char>, entries: nat) -> ProducerView {
    ProducerView {
        args,
        path,
        entries,
        index: 0,
        phase: ProducerPhase::Polling,
        reading: Seq::empty(),
    }
}

impl Producer {
    /// The filter is valid, the index is within the archive, and an entry
    /// is current while it is fetched, read or sent.
    pub closed spec fn wf(&self) -> bool {
        &&& filter_is_valid(text_of(self.args.glob))
        &&& self.index <= self.entries
        &&& (self.phase is Opening || self.phase is Reading || self.phase is Sending)
            ==> self.index < self.entries
    }

    /// A producer for the archive at `path`, which has `entries` entries.
    /// Fails exactly when the entry filter is not a valid pattern.
    pub fn new(args: Args, path: String, entries: usize) -> (producer: Result<Producer, Error>)
        ensures
            producer is Ok <==> filter_is_valid(text_of(args.glob)),
            producer is Ok ==> producer->Ok_0.wf() && producer->Ok_0@ == spec_producer_start(
                args,
                path@,
                entries as nat,
            ),
            producer is Err ==> spec_is_filter_error(args, producer->Err_0),
    {
        match check_filter(&args) {
            Ok(_) => Ok(
                Producer {
                    args,
                    path,
                    entries,
                    index: 0,
                    phase: ProducerPhase::Polling,
                    reading: String::new(),
                },
            ),
            Err(err) => Err(err),
        }
    }

    /// Where the producer stands.
    pub fn phase(&self) -> (phase: ProducerPhase)
        ensures
            phase == self@.phase,
    {
        self.phase
    }

    /// Ends in `Failed` and asks for the failure to be raised.
    fn fail(&mut self) -> (action: ProducerAction)
        requires
            old(self).wf(),
        ensures
            final(self).wf(),
            (final(self)@, action@) == spec_fail(old(self)@),
    {
        self.phase = ProducerPhase::Failed;
        ProducerAction::Fail
    }

    /// Answers one event with the next action.
    pub fn step(&mut self, event: ProducerEvent) -> (action: ProducerAction)
        requires
            old(self).wf(),
        ensures
            final(self).wf(),
            (final(self)@, action@) == spec_produce(old(self)@, event@),
    {
        match self.phase {
            ProducerPhase::Finished => ProducerAction::Done,
            ProducerPhase::Stopped => ProducerAction::Done,
            ProducerPhase::Failed => ProducerAction::Done,
            ProducerPhase::Polling => match event {
                ProducerEvent::Polled { cancelled } => if cancelled {
                    self.phase = ProducerPhase::Stopped;
                    ProducerAction::Stop
                } else if self.index < self.entries {
                    self.phase = ProducerPhase::Opening;
                    ProducerAction::Open(self.index)
                } else {
                    self.phase = ProducerPhase::Finished;
                    ProducerAction::Finish
                },
                _ => self.fail(),
            },
            ProducerPhase::Opening => match event {
                ProducerEvent::Opened { name, is_dir } => {
                    let selected = match select_entry(&self.args, name.as_str(), is_dir) {
                        Ok(selected) => selected,
                        Err(_) => {
                            return self.fail();
                        },
                    };
                    match plan_for(&self.args, is_dir, selected) {
                        EntryPlan::Skip => {
                            self.phase = ProducerPhase::Polling;
                            self.index = self.index + 1;
                            ProducerAction::Poll
                        },
                        EntryPlan::EmitUnread => {
                            self.phase = ProducerPhase::Sending;
                            ProducerAction::Send(
                                UnzippedFile::without_content(
                                    &self.args,
                                    self.path.as_str(),
                                    name,
                                ),
                            )
                        },
                        EntryPlan::ReadContent => {
                            self.phase = ProducerPhase::Reading;
                            self.reading = name;
                            ProducerAction::Read(self.index)
                        },
                    }
                },
                _ => self.fail(),
            },
            ProducerPhase::Reading => match event {
                ProducerEvent::Read(content) => {
                    let mut name = String::new();
                    std::mem::swap(&mut self.reading, &mut name);
                    self.phase = ProducerPhase::Sending;
                    ProducerAction::Send(
                        UnzippedFile::from_content(&self.args, self.path.as_str(), name, content),
                    )
                },
                _ => self.fail(),
            },
            ProducerPhase::Sending => match event {
                ProducerEvent::Sent => {
                    self.phase = ProducerPhase::Polling;
                    self.index = self.index + 1;
                    ProducerAction::Poll
                },
                _ => self.fail(),
            },
        }
    }
}

/// The state after the archive's first entries were handled with the
/// cancellation flag clear throughout, and the rows that were sent.
pub open spec fn spec_produce_all(state: ProducerView, entries: Seq<Entry>) -> (
    ProducerView,
    Seq<Row>,
)
    decreases entries.len(),
{
    if entries.len() == 0 {
        (state, Seq::empty())
    } else {
        let (before, sent) = spec_produce_all(state, entries.drop_last());
        let entry = entries.last();
        let opening = spec_produce(before, ProducerEventView::Polled { cancelled: false }).0;
        let (opened, action) = spec_produce(
            opening,
            ProducerEventView::Opened { name: entry.name, is_dir: entry.is_dir },
        );
        match action {
            ProducerActionView::Send(row) => (
                spec_produce(opened, ProducerEventView::Sent).0,
                sent.push(row),
            ),
            ProducerActionView::Read(_) => {
                let (sending, after_read) = spec_produce(
                    opened,
                    ProducerEventView::Read(entry.content),
                );
                match after_read {
                    ProducerActionView::Send(row) => (
                        spec_produce(sending, ProducerEventView::Sent).0,
                        sent.push(row),
                    ),
                    _ => (sending, sent),
                }
            },
            _ => (opened, sent),
        }
    }
}

/// An archive task that sees no cancellation and no failure sends exactly
/// the rows of the selected entries, in the archive's order, and stands
/// between entries after each.
pub proof fn lemma_uncancelled_producer_sends_selected(
    args: Args,
    path: Seq<char>,
    total: nat,
    entries: Seq<Entry>,
)
    requires
        entries.len() <= total,
    ensures
        spec_produce_all(spec_producer_start(args, path, total), entries) == (
            ProducerView { index: entries.len(), ..spec_producer_start(args, path, total) },
            spec_extract(args, path, entries),
        ),
    decreases entries.len(),
{
    if entries.len() > 0 {
        lemma_uncancelled_producer_sends_selected(args, path, total, entries.drop_last());
    }
}

/// After the last entry an archive task finishes.
pub proof fn lemma_producer_finishes(args: Args, path: Seq<char>, entries: Seq<Entry>)
    ensures
        spec_produce(
            spec_produce_all(spec_producer_start(args, path, entries.len()), entries).0,
            ProducerEventView::Polled { cancelled: false },
        ).1 == ProducerActionView::Finish,
{
    lemma_uncancelled_producer_sends_selected(args, path, entries.len(), entries);
}

/// A set cancellation flag, seen between two entries, stops the producer.
pub proof fn lemma_cancelled_poll_stops(state: ProducerView)
    requires
        state.phase is Polling,
    ensures
        spec_produce(state, ProducerEventView::Polled { cancelled: true }) == (
            ProducerView { phase: ProducerPhase::Stopped, ..state },
            ProducerActionView::Stop,
        ),
{
}

/// A producer that stopped, finished or failed sends nothing more,
/// whatever happens.
pub proof fn lemma_stopped_producer_is_silent(state: ProducerView, event: ProducerEventView)
    requires
        state.phase is Stopped || state.phase is Finished || state.phase is Failed,
    ensures
        spec_produce(state, event) == (state, ProducerActionView::Done),
{
}

} // verus!
