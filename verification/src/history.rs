//! The append-only audit ledger.
//!
//! Every successful mutation appends exactly one event, in the same unit of
//! work as the mutation it describes. Events are never updated or deleted.

use vstd::prelude::*;

use crate::change_set::ChangeSet;
use crate::edit_session::EditSession;
use crate::row::RelationRow;
use crate::row::Row;
use crate::tenancy::Tenancy;

verus! {

/// Who performed a mutation.
#[derive(Clone, Copy, Debug, PartialEq, Eq, Structural, Hash)]
pub enum HistoryActor {
    SystemInit,
    User(i64),
}

/// The state of the thing an event describes, as it was at event time: the
/// written row or relation version, or the lifecycle record a transition
/// left behind.
#[derive(Debug)]
pub enum HistorySnapshot {
    Row(Row),
    Relation(RelationRow),
    ChangeSet(ChangeSet),
    EditSession(EditSession),
}

impl Clone for HistorySnapshot {
    fn clone(&self) -> (res: Self)
        ensures
            res == *self,
    {
        match self {
            HistorySnapshot::Row(row) => HistorySnapshot::Row(row.clone()),
            HistorySnapshot::Relation(link) => HistorySnapshot::Relation(*link),
            HistorySnapshot::ChangeSet(cs) => HistorySnapshot::ChangeSet(cs.clone()),
            HistorySnapshot::EditSession(es) => HistorySnapshot::EditSession(es.clone()),
        }
    }
}

/// One immutable ledger entry.
#[derive(Debug)]
pub struct HistoryEvent {
    /// Machine-readable label, e.g. `change_set.create`.
    pub label: String,
    /// Human-readable message.
    pub message: String,
    pub actor: HistoryActor,
    /// The state of the mutated thing at event time.
    pub snapshot: Option<HistorySnapshot>,
    pub tenancy: Tenancy,
    pub at: i64,
}

impl Clone for HistoryEvent {
    fn clone(&self) -> (res: Self)
        ensures
            res == *self,
    {
        let snapshot = match &self.snapshot {
            Some(snap) => Some(snap.clone()),
            None => None,
        };
        HistoryEvent {
            label: self.label.clone(),
            message: self.message.clone(),
            actor: self.actor,
            snapshot,
            tenancy: self.tenancy,
            at: self.at,
        }
    }
}

/// The ledger: an insert-only sequence of events in insertion order.
#[derive(Debug)]
pub struct HistoryEventLog {
    pub events: Vec<HistoryEvent>,
}

impl HistoryEventLog {
    pub fn new() -> (log: HistoryEventLog)
        ensures
            log.events@ =~= Seq::<HistoryEvent>::empty(),
    {
        HistoryEventLog { events: Vec::new() }
    }

    /// Appends exactly one entry; nothing else changes.
    pub fn record(&mut self, event: HistoryEvent)
        ensures
            final(self).events@ == old(self).events@.push(event),
    {
        self.events.push(event);
    }

    pub fn len(&self) -> (n: usize)
        ensures
            n == self.events@.len(),
    {
        self.events.len()
    }

    /// Reads one entry of the ledger by position, oldest first.
    pub fn get(&self, index: usize) -> (ev: Option<&HistoryEvent>)
        ensures
            index < self.events@.len() ==> ev == Some(&self.events@[index as int]),
            index >= self.events@.len() ==> ev is None,
    {
        if index < self.events.len() {
            Some(&self.events[index])
        } else {
            None
        }
    }
}

impl Clone for HistoryEventLog {
    fn clone(&self) -> (res: Self)
        ensures
            res.events@ == self.events@,
    {
        let events = self.events.clone();
        proof {
            assert(events@ =~= self.events@);
        }
        HistoryEventLog { events }
    }
}

} // verus!
