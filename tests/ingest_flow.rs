use eventually::ingest::{Action, Channel, Clock, Event, Ingestion, Prior};
use eventually::normalize::IngestError;
use eventually::record::{Created, Record, Value};

#[derive(Clone, Default)]
struct Tables {
    docs: Vec<(String, String)>,
    versions: Vec<(String, String, String)>,
    notes: Vec<(String, String)>,
}

/// A transactional store kept in memory: documents are held as their debug text.
struct MemStore {
    committed: Tables,
    working: Tables,
    fail_notify: bool,
    actions: Vec<String>,
}

fn text_of(r: &Record) -> String {
    format!("{:?}", r)
}

fn hash_of(text: &str) -> String {
    let mut h: u64 = 1469598103934665603;
    for b in text.bytes() {
        h ^= b as u64;
        h = h.wrapping_mul(1099511628211);
    }
    format!("{:016x}", h)
}

impl MemStore {
    fn new() -> MemStore {
        MemStore { committed: Tables::default(), working: Tables::default(), fail_notify: false, actions: vec![] }
    }

    fn perform(&mut self, a: Action, stored: &mut Vec<(String, Record)>, staged: &mut Vec<(String, Record)>) -> Event {
        match a {
            Action::Begin => {
                self.actions.push("begin".to_string());
                self.working = self.committed.clone();
                *staged = stored.iter().map(|(k, r)| (k.clone(), r.duplicate())).collect();
                Event::Done
            }
            Action::FetchLatest { id } => {
                self.actions.push(format!("fetch {}", id));
                match staged.iter().find(|(k, _)| *k == id) {
                    Some((_, r)) => Event::Previous(Prior::Found(r.duplicate())),
                    None => Event::Previous(Prior::Absent),
                }
            }
            Action::Upsert { id, object } => {
                self.actions.push(format!("upsert {}", id));
                let text = text_of(&object);
                let pos = self.working.docs.iter().position(|(k, _)| *k == id);
                match pos {
                    Some(p) => {
                        self.working.docs[p].1 = text;
                        let q = staged.iter().position(|(k, _)| *k == id).unwrap();
                        staged[q].1 = object;
                        Event::Upserted(false)
                    }
                    None => {
                        self.working.docs.push((id.clone(), text));
                        staged.push((id, object));
                        Event::Upserted(true)
                    }
                }
            }
            Action::ArchiveVersion { id, object, observed: _ } => {
                self.actions.push(format!("archive {}", id));
                let text = text_of(&object);
                let h = hash_of(&text);
                self.working.versions.push((id, text, h.clone()));
                Event::Archived(h)
            }
            Action::Notify { channel, payload } => {
                self.actions.push(format!("notify {}", channel.name()));
                if self.fail_notify {
                    Event::Failed
                } else {
                    self.working.notes.push((channel.name(), payload));
                    Event::Done
                }
            }
            Action::Commit => {
                self.actions.push("commit".to_string());
                self.committed = self.working.clone();
                *stored = staged.iter().map(|(k, r)| (k.clone(), r.duplicate())).collect();
                Event::Done
            }
            Action::Rollback => {
                self.actions.push("rollback".to_string());
                self.working = self.committed.clone();
                Event::Done
            }
        }
    }
}

struct World {
    store: MemStore,
    stored: Vec<(String, Record)>,
    tick: i64,
}

impl World {
    fn new() -> World {
        World { store: MemStore::new(), stored: vec![], tick: 1_000 }
    }

    fn ingest(&mut self, records: Vec<Record>, source: &str) -> Option<Result<i64, IngestError>> {
        let mut run = Ingestion::new(records, source.to_string())?;
        let mut staged: Vec<(String, Record)> = vec![];
        let mut event = Event::Done;
        loop {
            self.tick += 1;
            let clock = Clock { seconds: self.tick, millis: self.tick * 1000 };
            match run.step(event, clock) {
                Some(a) => event = self.store.perform(a, &mut self.stored, &mut staged),
                None => break,
            }
        }
        run.result()
    }
}

fn rec(id: &str, created: &str, fields: Vec<(&str, Value)>, metadata: Vec<(&str, Value)>) -> Record {
    Record {
        id: id.to_string(),
        created: Created::Wire(created.to_string()),
        metadata: metadata.into_iter().map(|(k, v)| (k.to_string(), v)).collect(),
        fields: fields.into_iter().map(|(k, v)| (k.to_string(), v)).collect(),
    }
}

fn text(s: &str) -> Value {
    Value::Text(s.to_string())
}

#[test]
fn fresh_record_is_new_with_epoch_cursor() {
    let mut w = World::new();
    let r = w.ingest(vec![rec("A", "2020-01-01T00:00:00Z", vec![], vec![])], "blaseball.com");
    assert_eq!(r, Some(Ok(1577836800)));
    assert_eq!(w.store.committed.docs.len(), 1);
    assert_eq!(w.store.committed.docs[0].0, "A");
    assert_eq!(w.store.committed.notes, vec![("new_events".to_string(), "A".to_string())]);
    assert!(w.store.committed.versions.is_empty());
}

#[test]
fn first_sight_fires_one_new_notification() {
    let mut w = World::new();
    w.ingest(vec![rec("A", "2020-01-01T00:00:00Z", vec![], vec![])], "s");
    w.ingest(vec![rec("B", "2020-01-01T00:00:05Z", vec![], vec![])], "s");
    let notes = &w.store.committed.notes;
    assert_eq!(notes.len(), 2);
    assert_eq!(notes[1], ("new_events".to_string(), "B".to_string()));
    assert!(notes.iter().all(|(c, _)| c == "new_events"));
}

#[test]
fn unchanged_reingest_is_a_no_op() {
    let mut w = World::new();
    let make = || rec("A", "2020-01-01T00:00:00Z", vec![("description", text("x"))], vec![]);
    w.ingest(vec![make()], "s");
    w.ingest(vec![make()], "s");
    assert_eq!(w.store.committed.docs.len(), 1);
    assert!(w.store.committed.versions.is_empty());
    assert_eq!(w.store.committed.notes.len(), 1);
    assert!(!w.store.committed.notes.iter().any(|(c, _)| c == "changed_events"));
}

#[test]
fn volatile_change_is_not_versioned() {
    let mut w = World::new();
    w.ingest(vec![rec("A", "2020-01-01T00:00:00Z", vec![("nuts", Value::Int(1))], vec![("scales", Value::Int(1))])], "s");
    w.ingest(vec![rec("A", "2020-01-01T00:00:00Z", vec![("nuts", Value::Int(9))], vec![("scales", Value::Int(2))])], "s");
    assert_eq!(w.store.committed.docs.len(), 1);
    assert!(w.store.committed.versions.is_empty());
    assert_eq!(w.store.committed.notes.len(), 1);
}

#[test]
fn meaningful_change_is_versioned_and_announced() {
    let mut w = World::new();
    w.ingest(vec![rec("A", "2020-01-01T00:00:00Z", vec![("description", text("old"))], vec![])], "s");
    w.ingest(vec![rec("A", "2020-01-01T00:00:00Z", vec![("description", text("new"))], vec![])], "s");
    let t = &w.store.committed;
    assert_eq!(t.docs.len(), 1);
    assert_eq!(t.versions.len(), 2);
    assert!(t.versions[0].1.contains("old"));
    assert!(t.versions[1].1.contains("new"));
    let changed: Vec<_> = t.notes.iter().filter(|(c, _)| c == "changed_events").collect();
    assert_eq!(changed.len(), 1);
    assert_eq!(changed[0].1, t.versions[1].2);
}

#[test]
fn malformed_timestamp_aborts_the_batch() {
    let mut w = World::new();
    let r = w.ingest(
        vec![
            rec("A", "2020-01-01T00:00:00Z", vec![], vec![]),
            rec("B", "not a time", vec![], vec![]),
            rec("C", "2020-01-01T00:00:09Z", vec![], vec![]),
        ],
        "s",
    );
    assert_eq!(r, Some(Err(IngestError::MalformedTimestamp)));
    assert!(w.store.committed.docs.is_empty());
    assert!(w.store.committed.notes.is_empty());
    assert!(w.store.actions.contains(&"rollback".to_string()));
    assert!(!w.store.actions.contains(&"commit".to_string()));
    assert!(!w.store.actions.contains(&"upsert C".to_string()));
}

#[test]
fn failed_notification_keeps_the_upsert() {
    let mut w = World::new();
    w.store.fail_notify = true;
    let r = w.ingest(vec![rec("A", "2020-01-01T00:00:00Z", vec![], vec![]), rec("B", "2020-01-01T00:00:01Z", vec![], vec![])], "s");
    assert_eq!(r, Some(Ok(1577836801)));
    assert_eq!(w.store.committed.docs.len(), 2);
    assert!(w.store.actions.contains(&"commit".to_string()));
}

#[test]
fn cursor_is_the_last_created() {
    let mut w = World::new();
    let r = w.ingest(vec![rec("A", "2020-01-01T00:00:00Z", vec![], vec![]), rec("B", "2020-01-01T00:01:00Z", vec![], vec![])], "s");
    assert_eq!(r, Some(Ok(1577836860)));
}

#[test]
fn empty_batch_is_not_ingested() {
    assert!(Ingestion::new(vec![], "s".to_string()).is_none());
    let mut w = World::new();
    assert_eq!(w.ingest(vec![], "s"), None);
    assert!(w.store.actions.is_empty());
}

#[test]
fn unreadable_previous_still_archives_new_snapshot() {
    let mut run = Ingestion::new(vec![rec("A", "2020-01-01T00:00:00Z", vec![], vec![])], "s".to_string()).unwrap();
    let c = Clock { seconds: 5, millis: 5000 };
    assert!(matches!(run.step(Event::Done, c), Some(Action::Begin)));
    assert!(matches!(run.step(Event::Done, c), Some(Action::FetchLatest { .. })));
    assert!(matches!(run.step(Event::Failed, c), Some(Action::Upsert { .. })));
    match run.step(Event::Upserted(false), c) {
        Some(Action::ArchiveVersion { id, observed, .. }) => {
            assert_eq!(id, "A");
            assert_eq!(observed, 5000);
        }
        other => panic!("unexpected {:?}", other),
    }
    match run.step(Event::Archived("h1".to_string()), c) {
        Some(Action::Notify { channel, payload }) => {
            assert_eq!(channel, Channel::ChangedEvents);
            assert_eq!(payload, "h1");
        }
        other => panic!("unexpected {:?}", other),
    }
    assert!(matches!(run.step(Event::Done, c), Some(Action::Commit)));
    assert!(run.step(Event::Done, c).is_none());
    assert_eq!(run.result(), Some(Ok(1577836800)));
}
