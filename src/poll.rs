//! Decisions of the poller: which page of a feed to ask for, when the library
//! is due, which chapters to fetch and how their records are tagged.
use vstd::prelude::*;
use crate::normalize::IngestError;
use crate::record::{set_member, with_member, Record, RecordModel, Value, ValueModel};
use chrono::{DateTime, Utc};

verus! {

/// Records asked for in one page of the primary feed.
pub const PAGE_LIMIT: u32 = 100;

/// The request for one page of the primary feed.
pub struct FeedQuery {
    pub limit: u32,
    /// Oldest first from `start` when set; otherwise the feed's first page.
    pub ascending: bool,
    /// Epoch seconds of the position to resume from.
    pub start: Option<i64>,
}

/// The RFC 3339 text of epoch seconds `t`, where `t` is in chrono's range.
pub uninterp spec fn rfc3339_of(t: i64) -> Option<Seq<char>>;

pub open spec fn text_view(o: Option<String>) -> Option<Seq<char>> {
    match o {
        Some(s) => Some(s@),
        None => None,
    }
}

/// Relies on chrono's `DateTime::<Utc>::from_timestamp` (`None` outside its
/// range) and `DateTime::to_rfc3339`: the wire form of epoch seconds.
#[verifier::external_body]
fn format_wire_time(t: i64) -> (r: Option<String>)
    ensures
        text_view(r) == rfc3339_of(t),
{
    match DateTime::<Utc>::from_timestamp(t, 0) {
        Some(d) => Some(d.to_rfc3339()),
        None => None,
    }
}

impl FeedQuery {
    /// The `start` parameter of the request in the feed's timestamp form;
    /// `None` where there is no start, or it lies outside the representable range.
    pub fn start_text(&self) -> (r: Option<String>)
        ensures
            self.start is None ==> r is None,
            self.start matches Some(t) ==> text_view(r) == rfc3339_of(t),
    {
        match self.start {
            Some(t) => format_wire_time(t),
            None => None,
        }
    }
}

/// The primary feed's position: the `created` epoch of the last record ingested.
pub struct FeedCursor {
    latest: Option<i64>,
}

impl View for FeedCursor {
    type V = Option<i64>;

    closed spec fn view(&self) -> Option<i64> {
        self.latest
    }
}

/// The query that resumes a feed at epoch seconds `t`.
pub fn resume_query(t: i64) -> (q: FeedQuery)
    ensures
        q.limit == PAGE_LIMIT,
        q.ascending,
        q.start == Some(t),
{
    FeedQuery { limit: PAGE_LIMIT, ascending: true, start: Some(t) }
}

impl FeedCursor {
    /// A cursor that has seen nothing yet: the next poll starts from the feed's start.
    pub fn new() -> (r: FeedCursor)
        ensures
            r@ == None::<i64>,
    {
        FeedCursor { latest: None }
    }

    pub fn latest(&self) -> (r: Option<i64>)
        ensures
            r == self@,
    {
        self.latest
    }

    /// The next page to ask for: resume at the cursor, or the first page.
    pub fn query(&self) -> (q: FeedQuery)
        ensures
            q.limit == PAGE_LIMIT,
            q.ascending == (self@ is Some),
            q.start == self@,
    {
        match self.latest {
            Some(t) => resume_query(t),
            None => FeedQuery { limit: PAGE_LIMIT, ascending: false, start: None },
        }
    }

    /// Takes the outcome of ingesting a page: a completed batch moves the cursor
    /// to the cursor it returned; an aborted one, or none, leaves it.
    pub fn advance(&mut self, outcome: Option<Result<i64, IngestError>>)
        ensures
            match outcome {
                Some(Ok(c)) => final(self)@ == Some(c),
                _ => final(self)@ == old(self)@,
            },
    {
        if let Some(Ok(c)) = outcome {
            self.latest = Some(c);
        }
    }
}

/// Whether the library rescan is due: its interval has elapsed since the last one.
pub fn library_due(elapsed_ms: u64, interval_ms: u64) -> (r: bool)
    ensures
        r == (elapsed_ms >= interval_ms),
{
    elapsed_ms >= interval_ms
}

/// One chapter of the library catalog.
pub struct Chapter {
    pub id: String,
    pub title: Value,
    pub redacted: bool,
}

/// One book of the library catalog.
pub struct Book {
    pub title: Value,
    pub chapters: Vec<Chapter>,
}

/// The indices, in order, of the first `n` chapters that are not redacted.
pub open spec fn open_indices(chapters: Seq<Chapter>, n: int) -> Seq<usize>
    decreases n,
{
    if n <= 0 {
        Seq::empty()
    } else if chapters[n - 1].redacted {
        open_indices(chapters, n - 1)
    } else {
        open_indices(chapters, n - 1).push((n - 1) as usize)
    }
}

/// The chapters of a book whose history is fetched: those not redacted, in order.
pub fn open_chapters(book: &Book) -> (r: Vec<usize>)
    ensures
        r@ == open_indices(book.chapters@, book.chapters@.len() as int),
{
    let mut out: Vec<usize> = Vec::new();
    let mut i: usize = 0;
    while i < book.chapters.len()
        invariant
            i <= book.chapters.len(),
            out@ == open_indices(book.chapters@, i as int),
        decreases book.chapters.len() - i,
    {
        if !book.chapters[i].redacted {
            out.push(i);
        }
        i = i + 1;
    }
    out
}

/// `r` tagged with the book and chapter that it was fetched under.
pub open spec fn tagged(r: RecordModel, book_title: ValueModel, chapter_id: Seq<char>, chapter_title: ValueModel) -> RecordModel {
    RecordModel {
        metadata: with_member(
            with_member(
                with_member(r.metadata, "_eventually_book_title"@, book_title),
                "_eventually_chapter_id"@,
                ValueModel::Text(chapter_id),
            ),
            "_eventually_chapter_title"@,
            chapter_title,
        ),
        ..r
    }
}

/// Tags each record of a chapter's history with its book and chapter.
pub fn tag_with_chapter(records: &Vec<Record>, book: &Book, chapter: &Chapter) -> (r: Vec<Record>)
    ensures
        r.len() == records.len(),
        forall|i: int| 0 <= i < r.len() ==> #[trigger] r@[i]@ == tagged(records@[i]@, book.title@, chapter.id@, chapter.title@),
{
    let mut out: Vec<Record> = Vec::new();
    let mut i: usize = 0;
    while i < records.len()
        invariant
            i <= records.len(),
            out.len() == i,
            forall|j: int| 0 <= j < i ==> #[trigger] out@[j]@ == tagged(records@[j]@, book.title@, chapter.id@, chapter.title@),
        decreases records.len() - i,
    {
        let e = records[i].duplicate();
        let meta = set_member(&e.metadata, "_eventually_book_title".to_owned(), book.title.duplicate());
        let meta = set_member(&meta, "_eventually_chapter_id".to_owned(), Value::Text(chapter.id.clone()));
        let meta = set_member(&meta, "_eventually_chapter_title".to_owned(), chapter.title.duplicate());
        out.push(Record { id: e.id, created: e.created, metadata: meta, fields: e.fields });
        i = i + 1;
    }
    out
}

} // verus!
