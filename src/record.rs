use vstd::prelude::*;

verus! {

/// A member value of a record's top level or of its metadata map.
#[derive(Debug)]
pub enum Value {
    Text(String),
    Int(i64),
    /// Any other JSON value, held in its canonical serialized form.
    Other(String),
}

pub enum ValueModel {
    Text(Seq<char>),
    Int(i64),
    Other(Seq<char>),
}

impl View for Value {
    type V = ValueModel;

    open spec fn view(&self) -> ValueModel {
        match self {
            Value::Text(s) => ValueModel::Text(s@),
            Value::Int(n) => ValueModel::Int(*n),
            Value::Other(s) => ValueModel::Other(s@),
        }
    }
}

/// The origin timestamp of a record: as published, or normalized to epoch seconds.
#[derive(Debug)]
pub enum Created {
    Wire(String),
    Epoch(i64),
}

pub enum CreatedModel {
    Wire(Seq<char>),
    Epoch(i64),
}

impl View for Created {
    type V = CreatedModel;

    open spec fn view(&self) -> CreatedModel {
        match self {
            Created::Wire(s) => CreatedModel::Wire(s@),
            Created::Epoch(t) => CreatedModel::Epoch(*t),
        }
    }
}

/// One feed event. `metadata` and `fields` list the members of the metadata
/// map and of the other top-level members, by key.
#[derive(Debug)]
pub struct Record {
    pub id: String,
    pub created: Created,
    pub metadata: Vec<(String, Value)>,
    pub fields: Vec<(String, Value)>,
}

pub type EntryModel = (Seq<char>, ValueModel);

pub struct RecordModel {
    pub id: Seq<char>,
    pub created: CreatedModel,
    pub metadata: Seq<EntryModel>,
    pub fields: Seq<EntryModel>,
}

pub open spec fn entry_view(e: (String, Value)) -> EntryModel {
    (e.0@, e.1@)
}

pub open spec fn entries_view(v: Seq<(String, Value)>) -> Seq<EntryModel> {
    v.map_values(|e: (String, Value)| entry_view(e))
}

impl View for Record {
    type V = RecordModel;

    open spec fn view(&self) -> RecordModel {
        RecordModel {
            id: self.id@,
            created: self.created@,
            metadata: entries_view(self.metadata@),
            fields: entries_view(self.fields@),
        }
    }
}

/// Whether a key names a volatile member: in metadata the scaling factors and
/// the ingestion time stamp, at the top level the vote counter.
pub open spec fn volatile_key(k: Seq<char>, in_metadata: bool) -> bool {
    if in_metadata {
        k == "scales"@ || k == "_ingest_time"@
    } else {
        k == "nuts"@
    }
}

/// The members that take part in comparison.
pub open spec fn kept(entries: Seq<EntryModel>, in_metadata: bool) -> Set<EntryModel> {
    Set::new(|e: EntryModel| entries.contains(e) && !volatile_key(e.0, in_metadata))
}

/// Two records carry the same meaningful content: equal once the volatile
/// members are stripped from both.
pub open spec fn same_content(a: RecordModel, b: RecordModel) -> bool {
    &&& a.id == b.id
    &&& a.created == b.created
    &&& kept(a.metadata, true) == kept(b.metadata, true)
    &&& kept(a.fields, false) == kept(b.fields, false)
}

/// `entries` without any member under key `k`, in order.
pub open spec fn without_key(entries: Seq<EntryModel>, k: Seq<char>) -> Seq<EntryModel>
    decreases entries.len(),
{
    if entries.len() == 0 {
        entries
    } else {
        let rest = without_key(entries.drop_last(), k);
        if entries.last().0 == k {
            rest
        } else {
            rest.push(entries.last())
        }
    }
}

/// `entries` with member `k` set to `v`: any earlier member under `k` is replaced.
pub open spec fn with_member(entries: Seq<EntryModel>, k: Seq<char>, v: ValueModel) -> Seq<EntryModel> {
    without_key(entries, k).push((k, v))
}

impl Value {
    pub fn duplicate(&self) -> (r: Value)
        ensures
            r@ == self@,
    {
        match self {
            Value::Text(s) => Value::Text(s.clone()),
            Value::Int(n) => Value::Int(*n),
            Value::Other(s) => Value::Other(s.clone()),
        }
    }

    pub fn same(&self, other: &Value) -> (r: bool)
        ensures
            r == (self@ == other@),
    {
        match (self, other) {
            (Value::Text(a), Value::Text(b)) => *a == *b,
            (Value::Int(a), Value::Int(b)) => *a == *b,
            (Value::Other(a), Value::Other(b)) => *a == *b,
            _ => false,
        }
    }
}

impl Created {
    pub fn duplicate(&self) -> (r: Created)
        ensures
            r@ == self@,
    {
        match self {
            Created::Wire(s) => Created::Wire(s.clone()),
            Created::Epoch(t) => Created::Epoch(*t),
        }
    }
}

pub fn copy_entries(v: &Vec<(String, Value)>) -> (r: Vec<(String, Value)>)
    ensures
        entries_view(r@) == entries_view(v@),
{
    let mut out: Vec<(String, Value)> = Vec::new();
    let mut i: usize = 0;
    while i < v.len()
        invariant
            i <= v.len(),
            entries_view(out@) == entries_view(v@.subrange(0, i as int)),
        decreases v.len() - i,
    {
        let e = (v[i].0.clone(), v[i].1.duplicate());
        out.push(e);
        proof {
            assert(v@.subrange(0, i + 1) == v@.subrange(0, i as int).push(v@[i as int]));
            assert(entries_view(v@.subrange(0, i + 1)) =~= entries_view(v@.subrange(0, i as int)).push(
                entry_view(v@[i as int]),
            ));
        }
        i = i + 1;
    }
    proof {
        assert(v@.subrange(0, v.len() as int) == v@);
    }
    out
}

impl Record {
    pub fn duplicate(&self) -> (r: Record)
        ensures
            r@ == self@,
    {
        Record {
            id: self.id.clone(),
            created: self.created.duplicate(),
            metadata: copy_entries(&self.metadata),
            fields: copy_entries(&self.fields),
        }
    }
}

pub fn is_volatile(k: &String, in_metadata: bool) -> (r: bool)
    ensures
        r == volatile_key(k@, in_metadata),
{
    if in_metadata {
        *k == "scales".to_owned() || *k == "_ingest_time".to_owned()
    } else {
        *k == "nuts".to_owned()
    }
}

fn entry_same(a: &(String, Value), b: &(String, Value)) -> (r: bool)
    ensures
        r == (entry_view(*a) == entry_view(*b)),
{
    a.0 == b.0 && a.1.same(&b.1)
}

fn holds_entry(v: &Vec<(String, Value)>, e: &(String, Value)) -> (r: bool)
    ensures
        r == entries_view(v@).contains(entry_view(*e)),
{
    let mut i: usize = 0;
    while i < v.len()
        invariant
            i <= v.len(),
            forall|j: int| 0 <= j < i ==> entry_view(v@[j]) != entry_view(*e),
        decreases v.len() - i,
    {
        if entry_same(&v[i], e) {
            assert(entries_view(v@)[i as int] == entry_view(*e));
            return true;
        }
        i = i + 1;
    }
    proof {
        if entries_view(v@).contains(entry_view(*e)) {
            let j = choose|j: int| 0 <= j < entries_view(v@).len() && entries_view(v@)[j] == entry_view(*e);
            assert(entry_view(v@[j]) == entry_view(*e));
        }
    }
    false
}

/// Every kept member of `a` is a member of `b`.
fn covers(a: &Vec<(String, Value)>, b: &Vec<(String, Value)>, in_metadata: bool) -> (r: bool)
    ensures
        r == kept(entries_view(a@), in_metadata).subset_of(kept(entries_view(b@), in_metadata)),
{
    let ghost ka = kept(entries_view(a@), in_metadata);
    let ghost kb = kept(entries_view(b@), in_metadata);
    let mut i: usize = 0;
    while i < a.len()
        invariant
            i <= a.len(),
            ka == kept(entries_view(a@), in_metadata),
            kb == kept(entries_view(b@), in_metadata),
            forall|j: int| 0 <= j < i && !volatile_key(a@[j].0@, in_metadata)
                ==> entries_view(b@).contains(#[trigger] entry_view(a@[j])),
        decreases a.len() - i,
    {
        if !is_volatile(&a[i].0, in_metadata) && !holds_entry(b, &a[i]) {
            proof {
                let e = entry_view(a@[i as int]);
                assert(entries_view(a@)[i as int] == e);
                assert(ka.contains(e));
                assert(!kb.contains(e));
            }
            return false;
        }
        i = i + 1;
    }
    proof {
        assert forall|e: EntryModel| ka.contains(e) implies kb.contains(e) by {
            let j = choose|j: int| 0 <= j < entries_view(a@).len() && entries_view(a@)[j] == e;
            assert(entry_view(a@[j]) == e);
        }
    }
    true
}

fn members_agree(a: &Vec<(String, Value)>, b: &Vec<(String, Value)>, in_metadata: bool) -> (r: bool)
    ensures
        r == (kept(entries_view(a@), in_metadata) == kept(entries_view(b@), in_metadata)),
{
    let r = covers(a, b, in_metadata) && covers(b, a, in_metadata);
    proof {
        let ka = kept(entries_view(a@), in_metadata);
        let kb = kept(entries_view(b@), in_metadata);
        if r {
            assert(ka =~= kb);
        }
    }
    r
}

fn created_same(a: &Created, b: &Created) -> (r: bool)
    ensures
        r == (a@ == b@),
{
    match (a, b) {
        (Created::Wire(x), Created::Wire(y)) => *x == *y,
        (Created::Epoch(x), Created::Epoch(y)) => *x == *y,
        _ => false,
    }
}

/// Decides whether `incoming` differs meaningfully from `stored`: the records
/// are compared with their volatile members stripped, each side's remaining
/// members contained in the other's.
pub fn content_changed(stored: &Record, incoming: &Record) -> (r: bool)
    ensures
        r == !same_content(stored@, incoming@),
{
    let same = stored.id == incoming.id && created_same(&stored.created, &incoming.created)
        && members_agree(&stored.metadata, &incoming.metadata, true)
        && members_agree(&stored.fields, &incoming.fields, false);
    !same
}

/// Sets member `k` of `entries` to `v`, replacing any earlier member under `k`.
pub fn set_member(entries: &Vec<(String, Value)>, k: String, v: Value) -> (r: Vec<(String, Value)>)
    ensures
        entries_view(r@) == with_member(entries_view(entries@), k@, v@),
{
    let mut out: Vec<(String, Value)> = Vec::new();
    let mut i: usize = 0;
    while i < entries.len()
        invariant
            i <= entries.len(),
            entries_view(out@) == without_key(entries_view(entries@.subrange(0, i as int)), k@),
        decreases entries.len() - i,
    {
        proof {
            let s = entries@.subrange(0, i + 1);
            assert(s.drop_last() == entries@.subrange(0, i as int));
            assert(entries_view(s).drop_last() == entries_view(entries@.subrange(0, i as int)));
            assert(entries_view(s).last() == entry_view(entries@[i as int]));
        }
        if entries[i].0 != k {
            let e = (entries[i].0.clone(), entries[i].1.duplicate());
            out.push(e);
        }
        i = i + 1;
    }
    proof {
        assert(entries@.subrange(0, entries.len() as int) == entries@);
    }
    out.push((k, v));
    out
}

} // verus!
