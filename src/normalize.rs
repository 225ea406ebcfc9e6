use vstd::prelude::*;
use crate::record::{
    entries_view, kept, same_content, set_member, with_member, without_key, Created, CreatedModel,
    EntryModel, Record, RecordModel, Value, ValueModel,
};
use chrono::{DateTime, Utc};

verus! {

#[derive(Debug, PartialEq, Eq, Structural)]
pub enum IngestError {
    /// The record's `created` member is not a timestamp that can be read.
    MalformedTimestamp,
}

/// The epoch seconds that a wire timestamp stands for, if it can be read.
pub uninterp spec fn wire_epoch(s: Seq<char>) -> Option<i64>;

/// Relies on chrono's `FromStr` for `DateTime<Utc>` (a relaxed RFC 3339) and on
/// `DateTime::timestamp`: the epoch seconds of a wire timestamp, `None` where
/// chrono refuses the text.
#[verifier::external_body]
fn parse_wire_time(s: &str) -> (r: Option<i64>)
    ensures
        r == wire_epoch(s@),
{
    match s.parse::<DateTime<Utc>>() {
        Ok(t) => Some(t.timestamp()),
        Err(_) => None,
    }
}

/// Relies on chrono's `Utc::now` and `DateTime::timestamp`: the time now, in epoch seconds.
#[verifier::external_body]
pub(crate) fn now_seconds() -> i64 {
    Utc::now().timestamp()
}

/// Relies on chrono's `Utc::now` and `DateTime::timestamp_millis`: the time now,
/// in epoch milliseconds.
#[verifier::external_body]
pub(crate) fn now_millis() -> i64 {
    Utc::now().timestamp_millis()
}

/// The epoch seconds of a record's `created` member, if it can be read.
pub open spec fn epoch_of(c: CreatedModel) -> Option<i64> {
    match c {
        CreatedModel::Wire(s) => wire_epoch(s),
        CreatedModel::Epoch(t) => Some(t),
    }
}

/// `raw` in storage form: `created` as epoch seconds `t`, metadata stamped with
/// the source tag and the ingestion time.
pub open spec fn stamped(raw: RecordModel, t: i64, source: Seq<char>, now: i64) -> RecordModel {
    RecordModel {
        id: raw.id,
        created: CreatedModel::Epoch(t),
        metadata: with_member(
            with_member(raw.metadata, "_ingest_source"@, ValueModel::Text(source)),
            "_ingest_time"@,
            ValueModel::Int(now),
        ),
        fields: raw.fields,
    }
}

/// What normalization makes of `raw`.
pub open spec fn normalized(raw: RecordModel, source: Seq<char>, now: i64) -> Option<RecordModel> {
    match epoch_of(raw.created) {
        Some(t) => Some(stamped(raw, t, source, now)),
        None => None,
    }
}

/// Reads the epoch seconds of a `created` member.
pub fn created_epoch(c: &Created) -> (r: Option<i64>)
    ensures
        r == epoch_of(c@),
{
    match c {
        Created::Wire(s) => parse_wire_time(s.as_str()),
        Created::Epoch(t) => Some(*t),
    }
}

/// Puts `raw` in storage form, given the epoch seconds `t` of its `created`
/// member, the source tag and the time now.
pub fn stamp(raw: Record, t: i64, source: &str, now: i64) -> (r: Record)
    ensures
        r@ == stamped(raw@, t, source@, now),
{
    let meta = set_member(&raw.metadata, "_ingest_source".to_owned(), Value::Text(source.to_owned()));
    let meta = set_member(&meta, "_ingest_time".to_owned(), Value::Int(now));
    Record { id: raw.id, created: Created::Epoch(t), metadata: meta, fields: raw.fields }
}

/// Normalizes a fetched record for storage; fails where its `created` member
/// cannot be read as a timestamp.
pub fn normalize(raw: Record, source: &str, now: i64) -> (r: Result<Record, IngestError>)
    ensures
        match normalized(raw@, source@, now) {
            Some(n) => r matches Ok(x) && x@ == n,
            None => r == Err::<Record, IngestError>(IngestError::MalformedTimestamp),
        },
{
    match created_epoch(&raw.created) {
        Some(t) => Ok(stamp(raw, t, source, now)),
        None => Err(IngestError::MalformedTimestamp),
    }
}

proof fn lemma_push_contains(q: Seq<EntryModel>, x: EntryModel, e: EntryModel)
    ensures
        q.push(x).contains(e) <==> (q.contains(e) || e == x),
{
    if q.push(x).contains(e) && e != x {
        let j = choose|j: int| 0 <= j < q.push(x).len() && q.push(x)[j] == e;
        assert(q[j] == e);
    }
    if e == x {
        assert(q.push(x)[q.len() as int] == e);
    }
    if q.contains(e) {
        let j = choose|j: int| 0 <= j < q.len() && q[j] == e;
        assert(q.push(x)[j] == e);
    }
}

proof fn lemma_without_key_contains(s: Seq<EntryModel>, k: Seq<char>, e: EntryModel)
    ensures
        without_key(s, k).contains(e) <==> (s.contains(e) && e.0 != k),
    decreases s.len(),
{
    if s.len() > 0 {
        let d = s.drop_last();
        lemma_without_key_contains(d, k, e);
        assert(s == d.push(s.last()));
        lemma_push_contains(d, s.last(), e);
        lemma_push_contains(without_key(d, k), s.last(), e);
    }
}

pub proof fn lemma_with_member_contains(s: Seq<EntryModel>, k: Seq<char>, v: ValueModel, e: EntryModel)
    ensures
        with_member(s, k, v).contains(e) <==> ((s.contains(e) && e.0 != k) || e == (k, v)),
{
    lemma_without_key_contains(s, k, e);
    lemma_push_contains(without_key(s, k), (k, v), e);
}

/// Normalizing one record twice, at two different times, gives two versions of
/// the same meaningful content: the ingestion time stamp is volatile.
pub proof fn lemma_renormalize_same_content(raw: RecordModel, source: Seq<char>, now1: i64, now2: i64)
    requires
        normalized(raw, source, now1) is Some,
    ensures
        normalized(raw, source, now2) is Some,
        same_content(
            normalized(raw, source, now1)->Some_0,
            normalized(raw, source, now2)->Some_0,
        ),
{
    let a = normalized(raw, source, now1)->Some_0;
    let b = normalized(raw, source, now2)->Some_0;
    let m = with_member(raw.metadata, "_ingest_source"@, ValueModel::Text(source));
    assert forall|e: EntryModel| kept(a.metadata, true).contains(e) <==> kept(b.metadata, true).contains(e) by {
        lemma_with_member_contains(m, "_ingest_time"@, ValueModel::Int(now1), e);
        lemma_with_member_contains(m, "_ingest_time"@, ValueModel::Int(now2), e);
    }
    assert(kept(a.metadata, true) =~= kept(b.metadata, true));
}

} // verus!
