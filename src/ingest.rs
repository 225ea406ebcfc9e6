use vstd::prelude::*;
use crate::normalize::{epoch_of, normalize, normalized, now_millis, now_seconds, IngestError};
use crate::record::{content_changed, same_content, Record, RecordModel};

verus! {

/// What the store held under a record's id when it was read, before the upsert.
#[derive(Debug)]
pub enum Prior {
    Found(Record),
    Absent,
    Unreadable,
}

pub enum PriorModel {
    Found(RecordModel),
    Absent,
    Unreadable,
}

impl View for Prior {
    type V = PriorModel;

    open spec fn view(&self) -> PriorModel {
        match self {
            Prior::Found(r) => PriorModel::Found(r@),
            Prior::Absent => PriorModel::Absent,
            Prior::Unreadable => PriorModel::Unreadable,
        }
    }
}

/// A notification channel of the store.
#[derive(Debug, Clone, Copy, PartialEq, Eq, Structural)]
pub enum Channel {
    /// Carries the id of a record seen for the first time.
    NewEvents,
    /// Carries the hash of the version archived for a changed record.
    ChangedEvents,
}

impl Channel {
    pub fn name(&self) -> (r: String)
        ensures
            *self == Channel::NewEvents ==> r@ == "new_events"@,
            *self == Channel::ChangedEvents ==> r@ == "changed_events"@,
    {
        match self {
            Channel::NewEvents => "new_events".to_owned(),
            Channel::ChangedEvents => "changed_events".to_owned(),
        }
    }
}

/// A store operation that the ingestion of a batch asks for. All of them run
/// in the batch's one transaction.
#[derive(Debug)]
pub enum Action {
    /// Open the batch's transaction.
    Begin,
    /// Read the stored document under `id`; answered by `Event::Previous`.
    FetchLatest { id: String },
    /// Insert or replace the document under `id`; answered by `Event::Upserted`.
    Upsert { id: String, object: Record },
    /// Append a version row; answered by `Event::Archived` with its hash.
    ArchiveVersion { id: String, object: Record, observed: i64 },
    /// Publish `payload` on `channel`.
    Notify { channel: Channel, payload: String },
    Commit,
    Rollback,
}

pub enum ActionModel {
    Begin,
    FetchLatest { id: Seq<char> },
    Upsert { id: Seq<char>, object: RecordModel },
    ArchiveVersion { id: Seq<char>, object: RecordModel, observed: i64 },
    Notify { channel: Channel, payload: Seq<char> },
    Commit,
    Rollback,
}

impl View for Action {
    type V = ActionModel;

    open spec fn view(&self) -> ActionModel {
        match self {
            Action::Begin => ActionModel::Begin,
            Action::FetchLatest { id } => ActionModel::FetchLatest { id: id@ },
            Action::Upsert { id, object } => ActionModel::Upsert { id: id@, object: object@ },
            Action::ArchiveVersion { id, object, observed } => ActionModel::ArchiveVersion {
                id: id@,
                object: object@,
                observed: *observed,
            },
            Action::Notify { channel, payload } => ActionModel::Notify {
                channel: *channel,
                payload: payload@,
            },
            Action::Commit => ActionModel::Commit,
            Action::Rollback => ActionModel::Rollback,
        }
    }
}

pub open spec fn action_view(a: Option<Action>) -> Option<ActionModel> {
    match a {
        Some(x) => Some(x@),
        None => None,
    }
}

/// The store's answer to the last action.
#[derive(Debug)]
pub enum Event {
    /// The action completed and returns nothing (begin, notify, commit, rollback).
    Done,
    Previous(Prior),
    Upserted(bool),
    /// A version row was appended, with this hash.
    Archived(String),
    /// The action failed.
    Failed,
}

pub enum EventModel {
    Done,
    Previous(PriorModel),
    Upserted(bool),
    Archived(Seq<char>),
    Failed,
}

impl View for Event {
    type V = EventModel;

    open spec fn view(&self) -> EventModel {
        match self {
            Event::Done => EventModel::Done,
            Event::Previous(p) => EventModel::Previous(p@),
            Event::Upserted(b) => EventModel::Upserted(*b),
            Event::Archived(h) => EventModel::Archived(h@),
            Event::Failed => EventModel::Failed,
        }
    }
}

/// Where the ingestion of a batch stands: which answer it waits for.
#[derive(Debug, Clone, Copy, PartialEq, Eq, Structural)]
pub enum Stage {
    Fresh,
    Opening,
    Reading,
    Upserting,
    ArchivingOld,
    ArchivingNew,
    Notifying,
    Closing,
    Finished,
    Aborted,
}

/// The time at a step: epoch seconds stamp records, epoch milliseconds date versions.
#[derive(Debug, Clone, Copy)]
pub struct Clock {
    pub seconds: i64,
    pub millis: i64,
}

/// The ingestion of one batch of records from one source.
pub struct Ingestion {
    records: Vec<Record>,
    source: String,
    index: usize,
    stage: Stage,
    current: Option<Record>,
    previous: Prior,
    cursor: i64,
}

pub struct IngestionModel {
    pub records: Seq<RecordModel>,
    pub source: Seq<char>,
    pub index: int,
    pub stage: Stage,
    pub current: Option<RecordModel>,
    pub previous: PriorModel,
    pub cursor: i64,
}

impl View for Ingestion {
    type V = IngestionModel;

    closed spec fn view(&self) -> IngestionModel {
        IngestionModel {
            records: self.records@.map_values(|r: Record| r@),
            source: self.source@,
            index: self.index as int,
            stage: self.stage,
            current: match self.current {
                Some(r) => Some(r@),
                None => None,
            },
            previous: self.previous@,
            cursor: self.cursor,
        }
    }
}

/// A stage in which one record is being worked on.
pub open spec fn at_record(s: Stage) -> bool {
    s == Stage::Reading || s == Stage::Upserting || s == Stage::ArchivingOld
        || s == Stage::ArchivingNew || s == Stage::Notifying
}

pub open spec fn well_formed(m: IngestionModel) -> bool {
    &&& m.records.len() > 0
    &&& 0 <= m.index <= m.records.len()
    &&& (m.stage == Stage::Fresh || m.stage == Stage::Opening) ==> m.index == 0
    &&& at_record(m.stage) ==> {
        &&& m.index < m.records.len()
        &&& m.current is Some
        &&& epoch_of(m.records[m.index].created) == Some(m.cursor)
    }
    &&& (m.stage == Stage::Closing || m.stage == Stage::Finished) ==> {
        &&& m.index == m.records.len()
        &&& epoch_of(m.records.last().created) == Some(m.cursor)
    }
    &&& m.stage == Stage::Aborted ==> {
        &&& m.index < m.records.len()
        &&& epoch_of(m.records[m.index].created) is None
    }
}

/// Moves on to record `i`: normalizes it and asks for its stored version, or
/// commits where the batch is done, or rolls back where it cannot be normalized.
pub open spec fn begin_record(m: IngestionModel, i: int, clock: Clock) -> (IngestionModel, Option<ActionModel>) {
    if i >= m.records.len() {
        (IngestionModel { index: i, stage: Stage::Closing, ..m }, Some(ActionModel::Commit))
    } else {
        match normalized(m.records[i], m.source, clock.seconds) {
            None => (IngestionModel { index: i, stage: Stage::Aborted, ..m }, Some(ActionModel::Rollback)),
            Some(n) => (
                IngestionModel {
                    index: i,
                    stage: Stage::Reading,
                    current: Some(n),
                    cursor: epoch_of(m.records[i].created)->Some_0,
                    ..m
                },
                Some(ActionModel::FetchLatest { id: n.id }),
            ),
        }
    }
}

/// The step of the ingestion machine: from its state and the store's answer to
/// the next state and the next action (`None` once the batch is over).
pub open spec fn next(m: IngestionModel, e: EventModel, clock: Clock) -> (IngestionModel, Option<ActionModel>) {
    let cur = m.current->Some_0;
    match m.stage {
        Stage::Fresh => (IngestionModel { stage: Stage::Opening, ..m }, Some(ActionModel::Begin)),
        Stage::Opening => begin_record(m, 0, clock),
        Stage::Reading => {
            let p = match e {
                EventModel::Previous(p) => p,
                _ => PriorModel::Unreadable,
            };
            (
                IngestionModel { stage: Stage::Upserting, previous: p, ..m },
                Some(ActionModel::Upsert { id: cur.id, object: cur }),
            )
        },
        Stage::Upserting => match e {
            EventModel::Upserted(true) => (
                IngestionModel { stage: Stage::Notifying, ..m },
                Some(ActionModel::Notify { channel: Channel::NewEvents, payload: cur.id }),
            ),
            EventModel::Upserted(false) => match m.previous {
                PriorModel::Found(p) => if same_content(p, cur) {
                    begin_record(m, m.index + 1, clock)
                } else {
                    (
                        IngestionModel { stage: Stage::ArchivingOld, ..m },
                        Some(ActionModel::ArchiveVersion { id: cur.id, object: p, observed: clock.millis }),
                    )
                },
                _ => (
                    IngestionModel { stage: Stage::ArchivingNew, ..m },
                    Some(ActionModel::ArchiveVersion { id: cur.id, object: cur, observed: clock.millis }),
                ),
            },
            _ => begin_record(m, m.index + 1, clock),
        },
        Stage::ArchivingOld => (
            IngestionModel { stage: Stage::ArchivingNew, ..m },
            Some(ActionModel::ArchiveVersion { id: cur.id, object: cur, observed: clock.millis }),
        ),
        Stage::ArchivingNew => match e {
            EventModel::Archived(h) => (
                IngestionModel { stage: Stage::Notifying, ..m },
                Some(ActionModel::Notify { channel: Channel::ChangedEvents, payload: h }),
            ),
            _ => begin_record(m, m.index + 1, clock),
        },
        Stage::Notifying => begin_record(m, m.index + 1, clock),
        Stage::Closing => (IngestionModel { stage: Stage::Finished, ..m }, None),
        Stage::Finished | Stage::Aborted => (m, None),
    }
}

/// How a batch ended: the cursor for the next poll, or the error that aborted it.
pub open spec fn result_of(m: IngestionModel) -> Option<Result<i64, IngestError>> {
    match m.stage {
        Stage::Finished => Some(Ok(m.cursor)),
        Stage::Aborted => Some(Err(IngestError::MalformedTimestamp)),
        _ => None,
    }
}

impl Ingestion {
    pub closed spec fn wf(&self) -> bool {
        &&& well_formed(self@)
        &&& self.index <= self.records.len()
        &&& at_record(self.stage) ==> self.current is Some
    }

    /// Starts the ingestion of a batch; an empty batch gives nothing to ingest.
    /// The first `step` asks to open the batch's transaction.
    pub fn new(records: Vec<Record>, source: String) -> (r: Option<Ingestion>)
        ensures
            records.len() == 0 <==> r is None,
            r matches Some(g) ==> {
                &&& g.wf()
                &&& g@.records == records@.map_values(|x: Record| x@)
                &&& g@.source == source@
                &&& g@.stage == Stage::Fresh
            },
    {
        if records.len() == 0 {
            return None;
        }
        Some(Ingestion {
            records,
            source,
            index: 0,
            stage: Stage::Fresh,
            current: None,
            previous: Prior::Absent,
            cursor: 0,
        })
    }

    fn begin_record(&mut self, i: usize, clock: Clock) -> (r: Option<Action>)
        requires
            old(self).wf(),
            i <= old(self).records.len(),
            old(self).stage == Stage::Opening || at_record(old(self).stage),
            old(self).stage == Stage::Opening ==> i == 0,
            at_record(old(self).stage) ==> i == old(self).index + 1,
        ensures
            final(self).wf(),
            (final(self)@, action_view(r)) == begin_record(old(self)@, i as int, clock),
    {
        let ghost m = self@;
        if i >= self.records.len() {
            self.index = i;
            self.stage = Stage::Closing;
            proof {
                assert(self@.records == m.records);
                assert(m.records.last() == m.records[m.index]);
            }
            return Some(Action::Commit);
        }
        let raw = self.records[i].duplicate();
        proof {
            assert(m.records[i as int] == raw@);
        }
        match normalize(raw, self.source.as_str(), clock.seconds) {
            Err(_) => {
                self.index = i;
                self.stage = Stage::Aborted;
                Some(Action::Rollback)
            },
            Ok(n) => {
                let id = n.id.clone();
                let t = match n.created {
                    crate::record::Created::Epoch(t) => t,
                    crate::record::Created::Wire(_) => 0,
                };
                self.index = i;
                self.stage = Stage::Reading;
                self.current = Some(n);
                self.cursor = t;
                Some(Action::FetchLatest { id })
            },
        }
    }

    /// Takes the store's answer to the last action and gives the next action,
    /// `None` once the batch is over; `clock` is the time now.
    pub fn step(&mut self, event: Event, clock: Clock) -> (r: Option<Action>)
        requires
            old(self).wf(),
        ensures
            final(self).wf(),
            (final(self)@, action_view(r)) == next(old(self)@, event@, clock),
    {
        let ghost m = self@;
        match self.stage {
            Stage::Fresh => {
                self.stage = Stage::Opening;
                Some(Action::Begin)
            },
            Stage::Opening => self.begin_record(0, clock),
            Stage::Reading => {
                let p = match event {
                    Event::Previous(p) => p,
                    _ => Prior::Unreadable,
                };
                self.previous = p;
                self.stage = Stage::Upserting;
                match &self.current {
                    Some(cur) => Some(Action::Upsert { id: cur.id.clone(), object: cur.duplicate() }),
                    None => None,
                }
            },
            Stage::Upserting => {
                match event {
                    Event::Upserted(true) => {
                        self.stage = Stage::Notifying;
                        match &self.current {
                            Some(cur) => Some(Action::Notify { channel: Channel::NewEvents, payload: cur.id.clone() }),
                            None => None,
                        }
                    },
                    Event::Upserted(false) => {
                        let changed = match (&self.previous, &self.current) {
                            (Prior::Found(p), Some(cur)) => {
                                if content_changed(p, cur) {
                                    Some(Action::ArchiveVersion { id: cur.id.clone(), object: p.duplicate(), observed: clock.millis })
                                } else {
                                    None
                                }
                            },
                            (_, Some(cur)) => Some(Action::ArchiveVersion { id: cur.id.clone(), object: cur.duplicate(), observed: clock.millis }),
                            _ => None,
                        };
                        match changed {
                            Some(a) => {
                                self.stage = match self.previous {
                                    Prior::Found(_) => Stage::ArchivingOld,
                                    _ => Stage::ArchivingNew,
                                };
                                Some(a)
                            },
                            None => self.begin_record(self.index + 1, clock),
                        }
                    },
                    _ => self.begin_record(self.index + 1, clock),
                }
            },
            Stage::ArchivingOld => {
                self.stage = Stage::ArchivingNew;
                match &self.current {
                    Some(cur) => Some(Action::ArchiveVersion { id: cur.id.clone(), object: cur.duplicate(), observed: clock.millis }),
                    None => None,
                }
            },
            Stage::ArchivingNew => {
                match event {
                    Event::Archived(h) => {
                        self.stage = Stage::Notifying;
                        Some(Action::Notify { channel: Channel::ChangedEvents, payload: h })
                    },
                    _ => self.begin_record(self.index + 1, clock),
                }
            },
            Stage::Notifying => self.begin_record(self.index + 1, clock),
            Stage::Closing => {
                self.stage = Stage::Finished;
                None
            },
            Stage::Finished | Stage::Aborted => None,
        }
    }

    /// `step` at the time now.
    pub fn advance(&mut self, event: Event) -> (r: Option<Action>)
        requires
            old(self).wf(),
        ensures
            final(self).wf(),
            exists|clock: Clock| (final(self)@, action_view(r)) == #[trigger] next(old(self)@, event@, clock),
    {
        let clock = Clock { seconds: now_seconds(), millis: now_millis() };
        self.step(event, clock)
    }

    /// How the batch ended: `Ok` with the cursor for the next poll, the `created`
    /// epoch of the batch's last record; `Err` where a record could not be
    /// normalized; `None` while the batch is still under way.
    pub fn result(&self) -> (r: Option<Result<i64, IngestError>>)
        requires
            self.wf(),
        ensures
            r == result_of(self@),
            r matches Some(Ok(c)) ==> epoch_of(self@.records.last().created) == Some(c),
    {
        match self.stage {
            Stage::Finished => Some(Ok(self.cursor)),
            Stage::Aborted => Some(Err(IngestError::MalformedTimestamp)),
            _ => None,
        }
    }
}

} // verus!
