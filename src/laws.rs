//! What holds of the ingestion machine across steps.
use vstd::prelude::*;
use crate::ingest::{
    begin_record, next, result_of, well_formed, ActionModel, Channel, EventModel, IngestionModel,
    PriorModel, Stage, Clock,
};
use crate::normalize::{epoch_of, lemma_renormalize_same_content, lemma_with_member_contains, normalized};
use crate::record::{kept, same_content, volatile_key, with_member, EntryModel, RecordModel, ValueModel};

verus! {

/// A record seen for the first time is announced once on the "new" channel,
/// and nothing is archived or announced as changed for it.
pub proof fn lemma_first_sight_is_new(m: IngestionModel, c1: Clock, e2: EventModel, c2: Clock)
    requires
        well_formed(m),
        m.stage == Stage::Upserting,
    ensures
        ({
            let (m1, a1) = next(m, EventModel::Upserted(true), c1);
            &&& a1 == Some(ActionModel::Notify { channel: Channel::NewEvents, payload: m.current->Some_0.id })
            &&& m1.stage == Stage::Notifying
            &&& next(m1, e2, c2) == begin_record(m1, m.index + 1, c2)
        }),
{
}

/// Ingesting again a record that is stored unchanged, normalized at another
/// time, archives nothing and announces nothing: the machine goes on to the
/// next record.
pub proof fn lemma_reingest_unchanged(
    m: IngestionModel,
    raw: RecordModel,
    stored_at: i64,
    now: i64,
    clock: Clock,
)
    requires
        well_formed(m),
        m.stage == Stage::Upserting,
        normalized(raw, m.source, stored_at) is Some,
        m.previous == PriorModel::Found(normalized(raw, m.source, stored_at)->Some_0),
        m.current == normalized(raw, m.source, now),
    ensures
        next(m, EventModel::Upserted(false), clock) == begin_record(m, m.index + 1, clock),
{
    lemma_renormalize_same_content(raw, m.source, stored_at, now);
}

/// Setting a volatile member to any value keeps a record's meaningful content.
pub proof fn lemma_volatile_member_ignored(p: RecordModel, k: Seq<char>, v: ValueModel, in_metadata: bool)
    requires
        volatile_key(k, in_metadata),
    ensures
        same_content(
            p,
            if in_metadata {
                RecordModel { metadata: with_member(p.metadata, k, v), ..p }
            } else {
                RecordModel { fields: with_member(p.fields, k, v), ..p }
            },
        ),
{
    let s = if in_metadata { p.metadata } else { p.fields };
    assert forall|e: EntryModel| kept(with_member(s, k, v), in_metadata).contains(e) <==> kept(s, in_metadata).contains(e) by {
        lemma_with_member_contains(s, k, v, e);
    }
    assert(kept(with_member(s, k, v), in_metadata) =~= kept(s, in_metadata));
}

/// A re-fetched record that differs from the stored one in a volatile member
/// only is neither archived nor announced.
pub proof fn lemma_volatile_change_unannounced(
    m: IngestionModel,
    p: RecordModel,
    k: Seq<char>,
    v: ValueModel,
    in_metadata: bool,
    clock: Clock,
)
    requires
        well_formed(m),
        m.stage == Stage::Upserting,
        m.previous == PriorModel::Found(p),
        volatile_key(k, in_metadata),
        m.current == Some(
            if in_metadata {
                RecordModel { metadata: with_member(p.metadata, k, v), ..p }
            } else {
                RecordModel { fields: with_member(p.fields, k, v), ..p }
            },
        ),
    ensures
        next(m, EventModel::Upserted(false), clock) == begin_record(m, m.index + 1, clock),
{
    lemma_volatile_member_ignored(p, k, v, in_metadata);
}

/// A meaningful change archives the superseded snapshot, then the new one, and
/// announces on the "changed" channel exactly the hash that the store gave for
/// the new snapshot's version; then the machine goes on to the next record.
pub proof fn lemma_change_archived_and_announced(
    m: IngestionModel,
    p: RecordModel,
    c1: Clock,
    e2: EventModel,
    c2: Clock,
    hash: Seq<char>,
    c3: Clock,
    e4: EventModel,
    c4: Clock,
)
    requires
        well_formed(m),
        m.stage == Stage::Upserting,
        m.previous == PriorModel::Found(p),
        !same_content(p, m.current->Some_0),
    ensures
        ({
            let cur = m.current->Some_0;
            let (m1, a1) = next(m, EventModel::Upserted(false), c1);
            let (m2, a2) = next(m1, e2, c2);
            let (m3, a3) = next(m2, EventModel::Archived(hash), c3);
            &&& a1 == Some(ActionModel::ArchiveVersion { id: cur.id, object: p, observed: c1.millis })
            &&& a2 == Some(ActionModel::ArchiveVersion { id: cur.id, object: cur, observed: c2.millis })
            &&& a3 == Some(ActionModel::Notify { channel: Channel::ChangedEvents, payload: hash })
            &&& next(m3, e4, c4) == begin_record(m3, m.index + 1, c4)
        }),
{
}

/// A record that cannot be normalized rolls the whole batch back, and the
/// machine asks for nothing after that: no later record is written, nothing
/// is committed.
pub proof fn lemma_malformed_aborts(m: IngestionModel, i: int, c1: Clock, e: EventModel, c2: Clock)
    requires
        well_formed(m),
        0 <= i < m.records.len(),
        epoch_of(m.records[i].created) is None,
    ensures
        ({
            let (m1, a1) = begin_record(m, i, c1);
            &&& a1 == Some(ActionModel::Rollback)
            &&& m1.stage == Stage::Aborted
            &&& next(m1, e, c2) == (m1, None::<ActionModel>)
        }),
{
}

/// A failed notification changes nothing: the machine goes on exactly as after
/// a delivered one, and the record's upsert stays in the transaction.
pub proof fn lemma_notify_failure_tolerated(m: IngestionModel, clock: Clock)
    requires
        well_formed(m),
        m.stage == Stage::Notifying,
    ensures
        next(m, EventModel::Failed, clock) == next(m, EventModel::Done, clock),
        next(m, EventModel::Failed, clock) == begin_record(m, m.index + 1, clock),
{
}

/// A batch that completes returns the `created` epoch of its last record.
pub proof fn lemma_cursor_is_last_created(m: IngestionModel)
    requires
        well_formed(m),
        m.stage == Stage::Finished,
    ensures
        result_of(m) == Some(Ok::<i64, crate::normalize::IngestError>(m.cursor)),
        epoch_of(m.records.last().created) == Some(m.cursor),
{
}

} // verus!
