use vstd::prelude::*;

use crate::event::{LayeredEvent, LayeredEventKind};

verus! {

/// Where a persisted write stands.
#[derive(Clone, Debug, PartialEq, Eq)]
pub enum PersistStatus {
    /// Queued, or written durably but not yet announced.
    Pending,
    /// Written durably and announced to the other processes.
    Finished,
    /// The write or its announcement failed; the text says why.
    Error(String),
}

/// A handle on one enqueued write, to be polled for its status.
#[derive(Clone, Copy, Debug, PartialEq, Eq)]
pub struct PersisterStatusReader {
    pub ticket: usize,
}

/// A write taken off the queue, to be applied to the durable tier.
#[derive(Clone, Debug)]
pub struct PersistJob {
    pub ticket: usize,
    pub event: LayeredEvent,
}

/// What the durable tier is told to do for an event.
#[derive(Clone, Debug, PartialEq, Eq)]
pub enum DurableOp {
    Put { table: String, key: String, value: Vec<u8> },
    Delete { table: String, key: String },
}

/// The durable tier as rows keyed by table and key.
pub type DurableRows = Map<(Seq<char>, Seq<char>), Seq<u8>>;

/// The durable tier after `op`.
pub open spec fn durable_apply(rows: DurableRows, op: DurableOp) -> DurableRows {
    match op {
        DurableOp::Put { table, key, value } => rows.insert((table@, key@), value@),
        DurableOp::Delete { table, key } => rows.remove((table@, key@)),
    }
}

/// The durable operation that an event stands for.
pub open spec fn durable_op_of(e: LayeredEvent) -> DurableOp {
    match e.kind {
        LayeredEventKind::Insertion => DurableOp::Put { table: e.table, key: e.key, value: e.payload },
        LayeredEventKind::Eviction => DurableOp::Delete { table: e.table, key: e.key },
    }
}

/// The durable operation for an event: an insertion puts its payload under
/// its key, an eviction deletes the key.
pub fn durable_op(event: &LayeredEvent) -> (r: DurableOp)
    ensures
        match event.kind {
            LayeredEventKind::Insertion => r matches DurableOp::Put { table, key, value } && table@
                == event.table@ && key@ == event.key@ && value@ == event.payload@,
            LayeredEventKind::Eviction => r matches DurableOp::Delete { table, key } && table@
                == event.table@ && key@ == event.key@,
        },
{
    match event.kind {
        LayeredEventKind::Insertion => DurableOp::Put {
            table: event.table.clone(),
            key: event.key.clone(),
            value: event.payload.clone(),
        },
        LayeredEventKind::Eviction => DurableOp::Delete {
            table: event.table.clone(),
            key: event.key.clone(),
        },
    }
}

/// The write-behind queue of one process and the status of every write
/// submitted to it. Writes leave the queue in the order they came in; a
/// status becomes finished only after its durable write succeeded and its
/// announcement went out.
pub struct PersisterClient {
    queue: Vec<PersistJob>,
    statuses: Vec<PersistStatus>,
    written: Vec<bool>,
}

impl PersisterClient {
    /// The writes waiting, oldest first, as (ticket, event).
    pub closed spec fn queued(&self) -> Seq<(nat, LayeredEvent)> {
        Seq::new(self.queue@.len(), |i: int| (self.queue@[i].ticket as nat, self.queue@[i].event))
    }

    /// The status of every ticket issued so far.
    pub closed spec fn statuses(&self) -> Seq<PersistStatus> {
        self.statuses@
    }

    /// Whether the durable write of each ticket was reported as done.
    pub closed spec fn written(&self) -> Seq<bool> {
        self.written@
    }

    pub closed spec fn wf(&self) -> bool {
        &&& self.written@.len() == self.statuses@.len()
        &&& forall|i: int|
            0 <= i < self.statuses@.len() && #[trigger] self.statuses@[i] == PersistStatus::Finished
                ==> self.written@[i]
        &&& forall|i: int| 0 <= i < self.queue@.len() ==> #[trigger] self.queue@[i].ticket < self.statuses@.len()
    }

    /// An empty queue.
    pub fn new() -> (r: Self)
        ensures
            r.wf(),
            r.queued() == Seq::<(nat, LayeredEvent)>::empty(),
            r.statuses() == Seq::<PersistStatus>::empty(),
    {
        let r = PersisterClient { queue: Vec::new(), statuses: Vec::new(), written: Vec::new() };
        assert(r.queued() =~= Seq::empty());
        r
    }

    /// Enqueues `event` and returns at once with a handle on its status,
    /// which starts out pending.
    pub fn write_event(&mut self, event: LayeredEvent) -> (r: PersisterStatusReader)
        requires
            old(self).wf(),
            old(self).statuses().len() < usize::MAX,
        ensures
            final(self).wf(),
            r.ticket == old(self).statuses().len(),
            final(self).queued() == old(self).queued().push((r.ticket as nat, event)),
            final(self).statuses() == old(self).statuses().push(PersistStatus::Pending),
            final(self).written() == old(self).written().push(false),
    {
        let ticket = self.statuses.len();
        let ghost q = self.queued();
        self.statuses.push(PersistStatus::Pending);
        self.written.push(false);
        self.queue.push(PersistJob { ticket, event });
        assert(self.queued() =~= q.push((ticket as nat, event)));
        PersisterStatusReader { ticket }
    }

    /// Takes the oldest waiting write off the queue.
    pub fn next_job(&mut self) -> (r: Option<PersistJob>)
        requires
            old(self).wf(),
        ensures
            final(self).wf(),
            final(self).statuses() == old(self).statuses(),
            final(self).written() == old(self).written(),
            old(self).queued().len() == 0 ==> r is None && final(self).queued() == old(self).queued(),
            old(self).queued().len() > 0 ==> r is Some && r->Some_0.ticket == old(self).queued()[0].0
                && r->Some_0.event == old(self).queued()[0].1 && final(self).queued() == old(self).queued().drop_first(),
    {
        if self.queue.len() == 0 {
            return None;
        }
        let ghost q = self.queued();
        let job = self.queue.remove(0);
        assert(self.queued() =~= q.drop_first());
        Some(job)
    }

    /// How many writes have been submitted so far.
    pub fn issued(&self) -> (r: usize)
        requires
            self.wf(),
        ensures
            r == self.statuses().len(),
    {
        self.statuses.len()
    }

    /// Whether every submitted write has been taken off the queue.
    pub fn is_drained(&self) -> (r: bool)
        ensures
            r == (self.queued().len() == 0),
    {
        self.queue.len() == 0
    }

    /// Records how the durable write of `ticket` went and says whether its
    /// announcement is to be sent: on success it is; on failure the status
    /// becomes an error with the failure's text, and it is not retried.
    pub fn record_durable_outcome(&mut self, ticket: usize, outcome: Result<(), String>) -> (publish: bool)
        requires
            old(self).wf(),
        ensures
            final(self).wf(),
            final(self).queued() == old(self).queued(),
            ticket >= old(self).statuses().len() ==> !publish && final(self).statuses() == old(self).statuses() && final(self).written() == old(self).written(),
            ticket < old(self).statuses().len() ==> match outcome {
                Ok(_) => publish && final(self).statuses() == old(self).statuses()
                    && final(self).written() == old(self).written().update(ticket as int, true),
                Err(e) => !publish && final(self).statuses() == old(self).statuses().update(
                    ticket as int,
                    PersistStatus::Error(e),
                ) && final(self).written() == old(self).written(),
            },
    {
        if ticket >= self.statuses.len() {
            return false;
        }
        match outcome {
            Ok(()) => {
                self.written.set(ticket, true);
                true
            },
            Err(e) => {
                self.statuses.set(ticket, PersistStatus::Error(e));
                false
            },
        }
    }

    /// Records how the announcement of `ticket` went: after a durable write
    /// that succeeded, the status becomes finished, or an error with the
    /// failure's text. A ticket whose durable write was not reported as done
    /// is left as it is.
    pub fn record_publish_outcome(&mut self, ticket: usize, outcome: Result<(), String>)
        requires
            old(self).wf(),
        ensures
            final(self).wf(),
            final(self).queued() == old(self).queued(),
            final(self).written() == old(self).written(),
            ticket < old(self).statuses().len() && old(self).written()[ticket as int] ==> final(self).statuses() == old(self).statuses().update(
                ticket as int,
                match outcome {
                    Ok(_) => PersistStatus::Finished,
                    Err(e) => PersistStatus::Error(e),
                },
            ),
            !(ticket < old(self).statuses().len() && old(self).written()[ticket as int]) ==> final(self).statuses() == old(self).statuses(),
    {
        if ticket >= self.statuses.len() || !self.written[ticket] {
            return;
        }
        match outcome {
            Ok(()) => self.statuses.set(ticket, PersistStatus::Finished),
            Err(e) => self.statuses.set(ticket, PersistStatus::Error(e)),
        }
    }

    /// The status of the write behind `reader`; a handle this queue never
    /// issued reads as pending.
    pub fn get_status(&self, reader: &PersisterStatusReader) -> (r: PersistStatus)
        ensures
            reader.ticket < self.statuses().len() ==> r == self.statuses()[reader.ticket as int],
            reader.ticket >= self.statuses().len() ==> r == PersistStatus::Pending,
    {
        if reader.ticket < self.statuses.len() {
            match &self.statuses[reader.ticket] {
                PersistStatus::Pending => PersistStatus::Pending,
                PersistStatus::Finished => PersistStatus::Finished,
                PersistStatus::Error(e) => PersistStatus::Error(e.clone()),
            }
        } else {
            PersistStatus::Pending
        }
    }
}

/// A finished status is owed to a durable write that was reported as done:
/// a write's status reads finished only after `record_durable_outcome` was
/// told that its durable write succeeded.
pub proof fn lemma_finished_is_durable(client: PersisterClient, ticket: int)
    requires
        client.wf(),
        0 <= ticket < client.statuses().len(),
        client.statuses()[ticket] == PersistStatus::Finished,
    ensures
        client.written()[ticket],
{
}

} // verus!
