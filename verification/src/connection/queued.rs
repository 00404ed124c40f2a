//! The queued connection: one bounded FIFO queue in front of a single worker
//! that alone touches the wire.
//!
//! The protocol carries no request identifiers, so a response can only be
//! matched to its request by order.  The queue makes that matching sound:
//! callers enqueue, the worker dequeues strictly first-in-first-out and has
//! the connection to itself, so requests reach the wire in queue order and
//! the n-th response frame belongs to the n-th waiting request.  The queue
//! is bounded: when it is full, submitting suspends instead of buffering
//! without limit.
//!
//! The worker's decisions live here as verified functions from state and
//! event to action; the surrounding task loop only performs the I/O those
//! actions name.  A frame that arrives after its request already timed out
//! is still treated as the next expected frame; this design cannot re-attribute
//! it, and every later response would then be off by one.

use vstd::prelude::*;

verus! {

use crate::connection::{
    complete_send, send_plan, spec_send_plan, ConnectOptions, ConnectionError, ReadOutcome,
    SendPlan,
};

// MARK: Data model

/// One pre-serialized command: an opaque payload, and whether the server
/// answers it with exactly one frame.
#[derive(Debug, Clone, PartialEq, Eq)]
pub struct Command {
    pub payload: Vec<u8>,
    pub expects_response: bool,
}

/// The mathematical value of a [`Command`].
pub struct SpecCommand {
    pub payload: Seq<u8>,
    pub expects_response: bool,
}

impl View for Command {
    type V = SpecCommand;

    open spec fn view(&self) -> SpecCommand {
        SpecCommand { payload: self.payload@, expects_response: self.expects_response }
    }
}

impl Command {
    /// Serializes one command into the form the queue carries.
    pub fn of<T: crate::connection::commands::SerializableCommand>(command: &T) -> (r: Command)
        ensures
            r@.payload == command.spec_command_bytes(),
            r@.expects_response == command.spec_has_response(),
    {
        Command { payload: command.to_command_bytes(), expects_response: command.has_response() }
    }
}

/// One entry of the queue, consumed once by the worker in FIFO order.
#[derive(Debug)]
pub enum QueueItem {
    /// A command, and the ticket of the completion slot its caller awaits.
    Request { command: Command, ticket: usize },
    /// Replace the worker's active options; nobody waits for this.
    OptionsUpdate { options: ConnectOptions },
    /// Close the connection and stop the worker.
    Close,
}

/// The mathematical value of a [`QueueItem`].
pub enum SpecQueueItem {
    Request { command: SpecCommand, ticket: nat },
    OptionsUpdate { options: ConnectOptions },
    Close,
}

impl View for QueueItem {
    type V = SpecQueueItem;

    open spec fn view(&self) -> SpecQueueItem {
        match self {
            QueueItem::Request { command, ticket } => SpecQueueItem::Request {
                command: command@,
                ticket: *ticket as nat,
            },
            QueueItem::OptionsUpdate { options } => SpecQueueItem::OptionsUpdate {
                options: *options,
            },
            QueueItem::Close => SpecQueueItem::Close,
        }
    }
}

/// The mathematical value of a [`ReadOutcome`].
pub enum SpecReadOutcome {
    Frame(Seq<u8>),
    TimedOut,
    Closed,
    TransportFailed,
}

impl View for ReadOutcome {
    type V = SpecReadOutcome;

    open spec fn view(&self) -> SpecReadOutcome {
        match self {
            ReadOutcome::Frame(f) => SpecReadOutcome::Frame(f@),
            ReadOutcome::TimedOut => SpecReadOutcome::TimedOut,
            ReadOutcome::Closed => SpecReadOutcome::Closed,
            ReadOutcome::TransportFailed => SpecReadOutcome::TransportFailed,
        }
    }
}

/// One result handed back to the caller holding the ticket.
#[derive(Debug, PartialEq, Eq)]
pub struct Delivery {
    pub ticket: usize,
    pub result: Result<Vec<u8>, ConnectionError>,
}

/// The mathematical value of a [`Delivery`].
pub struct SpecDelivery {
    pub ticket: nat,
    pub result: Result<Seq<u8>, ConnectionError>,
}

impl View for Delivery {
    type V = SpecDelivery;

    open spec fn view(&self) -> SpecDelivery {
        SpecDelivery {
            ticket: self.ticket as nat,
            result: match self.result {
                Ok(v) => Ok(v@),
                Err(e) => Err(e),
            },
        }
    }
}

// MARK: The bounded queue

/// Each pending request carries its own ticket: requests that entered the
/// queue earlier hold strictly smaller tickets, so no two callers share a
/// completion slot.
pub open spec fn tickets_increasing(items: Seq<SpecQueueItem>) -> bool {
    forall|i: int, j: int|
        0 <= i < j < items.len() && (#[trigger] items[i]) is Request && (#[trigger] items[j]) is Request
            ==> item_ticket(items[i]) < item_ticket(items[j])
}

/// The bounded FIFO queue between the callers and the worker.
///
/// At most `capacity` items wait at a time; a submission against a full
/// queue is refused with [`SubmitOutcome::Full`], which the asynchronous
/// shell turns into suspension until a slot frees.  Once the queue is
/// closed, every further submission fails instead of hanging.
#[derive(Debug)]
pub struct CommandQueue {
    items: Vec<QueueItem>,
    capacity: usize,
    closed: bool,
    next_ticket: usize,
}

/// What became of a submission.
#[derive(Debug, Clone, Copy, PartialEq, Eq)]
pub enum SubmitOutcome {
    /// The item is queued; a request's caller will be answered under this
    /// ticket.
    Accepted(usize),
    /// The queue is at capacity: the caller must wait for a slot.
    Full,
    /// The queue was shut down.
    Closed,
}

impl CommandQueue {
    /// The queued items, oldest first.
    pub closed spec fn contents(&self) -> Seq<SpecQueueItem> {
        self.items@.map_values(|it: QueueItem| it@)
    }

    /// The bound on how many items may wait at a time.
    pub closed spec fn cap(&self) -> nat {
        self.capacity as nat
    }

    /// Whether the queue has been shut down.
    pub closed spec fn is_closed(&self) -> bool {
        self.closed
    }

    /// The ticket the next accepted request will get.
    pub closed spec fn ticket_counter(&self) -> nat {
        self.next_ticket as nat
    }

    /// The queue is bounded, never holds more than its capacity, and every
    /// pending request holds a ticket of its own, in order of arrival and
    /// below the counter.
    pub open spec fn wf(&self) -> bool {
        &&& self.cap() >= 1
        &&& self.contents().len() <= self.cap()
        &&& tickets_increasing(self.contents())
        &&& forall|i: int|
            0 <= i < self.contents().len() && (#[trigger] self.contents()[i]) is Request
                ==> item_ticket(self.contents()[i]) < self.ticket_counter()
    }

    /// An empty open queue with the given capacity.
    pub fn new(capacity: usize) -> (r: CommandQueue)
        requires
            capacity >= 1,
        ensures
            r.wf(),
            r.cap() == capacity,
            r.contents() == Seq::<SpecQueueItem>::empty(),
            !r.is_closed(),
            r.ticket_counter() == 0,
    {
        let r = CommandQueue { items: Vec::new(), capacity, closed: false, next_ticket: 0 };
        proof {
            assert(r.contents() =~= Seq::<SpecQueueItem>::empty());
        }
        r
    }

    /// How many items wait right now.
    pub fn len(&self) -> (r: usize)
        ensures
            r == self.contents().len(),
    {
        self.items.len()
    }

    /// The queue's capacity.
    pub fn capacity(&self) -> (r: usize)
        ensures
            r == self.cap(),
    {
        self.capacity
    }

    /// Queue occupancy as a fraction of capacity, in hundredths: callers
    /// can skip a cycle instead of running into a full queue.
    pub fn pressure_percent(&self) -> (r: u8)
        requires
            self.wf(),
        ensures
            r as int == (self.contents().len() * 100) as int / self.cap() as int,
            r <= 100,
    {
        let n = self.items.len() as u128 * 100 / (self.capacity as u128);
        proof {
            assert((self.contents().len() * 100) as int <= self.cap() as int * 100);
            vstd::arithmetic::div_mod::lemma_div_is_ordered(
                (self.contents().len() * 100) as int,
                self.cap() as int * 100,
                self.cap() as int,
            );
            assert(self.cap() as int * 100 / self.cap() as int == 100) by {
                vstd::arithmetic::div_mod::lemma_div_multiples_vanish(
                    100,
                    self.cap() as int,
                );
            }
        }
        n as u8
    }

    /// Submits a request.  The queue never grows past its capacity: at
    /// capacity the submission is refused with `Full` and the caller must
    /// wait; after shutdown it fails with `Closed`.
    pub fn submit_request(&mut self, command: Command) -> (r: SubmitOutcome)
        requires
            old(self).wf(),
            old(self).ticket_counter() < usize::MAX as nat,
        ensures
            final(self).wf(),
            final(self).cap() == old(self).cap(),
            final(self).contents().len() <= old(self).cap(),
            old(self).is_closed() ==> {
                &&& r == SubmitOutcome::Closed
                &&& final(self).contents() == old(self).contents()
                &&& final(self).is_closed()
                &&& final(self).ticket_counter() == old(self).ticket_counter()
            },
            !old(self).is_closed() && old(self).contents().len() == old(self).cap() ==> {
                &&& r == SubmitOutcome::Full
                &&& final(self).contents() == old(self).contents()
                &&& !final(self).is_closed()
                &&& final(self).ticket_counter() == old(self).ticket_counter()
            },
            !old(self).is_closed() && old(self).contents().len() < old(self).cap() ==> {
                &&& r == SubmitOutcome::Accepted(old(self).ticket_counter() as usize)
                &&& final(self).contents() == old(self).contents().push(
                    SpecQueueItem::Request {
                        command: command@,
                        ticket: old(self).ticket_counter(),
                    },
                )
                &&& !final(self).is_closed()
                &&& final(self).ticket_counter() == old(self).ticket_counter() + 1
            },
    {
        if self.closed {
            return SubmitOutcome::Closed;
        }
        if self.items.len() >= self.capacity {
            return SubmitOutcome::Full;
        }
        let ticket = self.next_ticket;
        self.next_ticket += 1;
        self.items.push(QueueItem::Request { command, ticket });
        proof {
            assert(self.contents() =~= old(self).contents().push(
                SpecQueueItem::Request { command: command@, ticket: ticket as nat },
            ));
        }
        SubmitOutcome::Accepted(ticket)
    }

    /// Submits an options update without blocking: against a full queue it
    /// fails with `QueueFull`, after shutdown with `QueueClosed`.
    pub fn submit_options(&mut self, options: ConnectOptions) -> (r: Result<(), ConnectionError>)
        requires
            old(self).wf(),
        ensures
            final(self).wf(),
            final(self).cap() == old(self).cap(),
            final(self).is_closed() == old(self).is_closed(),
            final(self).ticket_counter() == old(self).ticket_counter(),
            old(self).is_closed() ==> r == Err::<(), ConnectionError>(ConnectionError::QueueClosed)
                && final(self).contents() == old(self).contents(),
            !old(self).is_closed() && old(self).contents().len() == old(self).cap() ==> r == Err::<
                (),
                ConnectionError,
            >(ConnectionError::QueueFull) && final(self).contents() == old(self).contents(),
            !old(self).is_closed() && old(self).contents().len() < old(self).cap() ==> r == Ok::<
                (),
                ConnectionError,
            >(()) && final(self).contents() == old(self).contents().push(
                SpecQueueItem::OptionsUpdate { options },
            ),
    {
        if self.closed {
            return Err(ConnectionError::QueueClosed);
        }
        if self.items.len() >= self.capacity {
            return Err(ConnectionError::QueueFull);
        }
        self.items.push(QueueItem::OptionsUpdate { options });
        proof {
            assert(self.contents() =~= old(self).contents().push(
                SpecQueueItem::OptionsUpdate { options },
            ));
        }
        Ok(())
    }

    /// Submits the close marker: the worker will drain what is already
    /// queued, then close the connection and stop.
    pub fn submit_close(&mut self) -> (r: SubmitOutcome)
        requires
            old(self).wf(),
        ensures
            final(self).wf(),
            final(self).cap() == old(self).cap(),
            final(self).is_closed() == old(self).is_closed(),
            final(self).ticket_counter() == old(self).ticket_counter(),
            old(self).is_closed() ==> r == SubmitOutcome::Closed && final(self).contents() == old(self).contents(),
            !old(self).is_closed() && old(self).contents().len() == old(self).cap() ==> r
                == SubmitOutcome::Full && final(self).contents() == old(self).contents(),
            !old(self).is_closed() && old(self).contents().len() < old(self).cap() ==> r
                == SubmitOutcome::Accepted(old(self).ticket_counter() as usize) && final(self).contents() == old(self).contents().push(SpecQueueItem::Close),
    {
        if self.closed {
            return SubmitOutcome::Closed;
        }
        if self.items.len() >= self.capacity {
            return SubmitOutcome::Full;
        }
        self.items.push(QueueItem::Close);
        proof {
            assert(self.contents() =~= old(self).contents().push(SpecQueueItem::Close));
        }
        SubmitOutcome::Accepted(self.next_ticket)
    }

    /// The worker takes the oldest item; taking the close marker shuts the
    /// queue, so later submissions fail instead of hanging.
    pub fn take_next(&mut self) -> (r: Option<QueueItem>)
        requires
            old(self).wf(),
        ensures
            final(self).wf(),
            final(self).cap() == old(self).cap(),
            final(self).ticket_counter() == old(self).ticket_counter(),
            match r {
                Some(item) => {
                    &&& old(self).contents().len() > 0
                    &&& item@ == old(self).contents()[0]
                    &&& final(self).contents() == old(self).contents().drop_first()
                    &&& final(self).is_closed() == (old(self).is_closed() || old(self).contents()[0] is Close)
                },
                None => {
                    &&& old(self).contents().len() == 0
                    &&& final(self).contents() == old(self).contents()
                    &&& final(self).is_closed() == old(self).is_closed()
                },
            },
    {
        if self.items.len() == 0 {
            return None;
        }
        let item = self.items.remove(0);
        if let QueueItem::Close = item {
            self.closed = true;
        }
        proof {
            assert(self.contents() =~= old(self).contents().drop_first());
            assert(item@ == old(self).contents()[0]);
        }
        Some(item)
    }

    /// Shuts the queue without a close marker, as when the worker dies:
    /// every later submission fails instead of hanging.
    pub fn mark_closed(&mut self)
        requires
            old(self).wf(),
        ensures
            final(self).wf(),
            final(self).cap() == old(self).cap(),
            final(self).contents() == old(self).contents(),
            final(self).ticket_counter() == old(self).ticket_counter(),
            final(self).is_closed(),
    {
        self.closed = true;
    }
}

// MARK: The worker

/// What the worker does with one dequeued item.
#[derive(Debug)]
pub enum WorkerAction {
    /// Write the payload to the wire, then answer the ticket as the plan
    /// says: an empty response at once, or the result of waiting for the
    /// next frame.
    Transmit { payload: Vec<u8>, ticket: usize, plan: SendPlan },
    /// Answer the ticket at once with a configuration error; nothing is
    /// written.
    Reject { ticket: usize },
    /// The options were replaced; there is nothing to send.
    Updated,
    /// Close the connection and stop.
    CloseConnection,
}

/// Decides what one dequeued item means, updating the active options in
/// place when the item replaces them.
pub fn worker_step(options: &mut ConnectOptions, item: QueueItem) -> (a: WorkerAction)
    ensures
        match item {
            QueueItem::Request { command, ticket } => {
                &&& *final(options) == *old(options)
                &&& ({
                    let plan = spec_send_plan(*old(options), command.expects_response);
                    if plan == SendPlan::Refuse {
                        a == WorkerAction::Reject { ticket }
                    } else {
                        a == WorkerAction::Transmit { payload: command.payload, ticket, plan }
                    }
                })
            },
            QueueItem::OptionsUpdate { options: o } => {
                &&& *final(options) == o
                &&& a == WorkerAction::Updated
            },
            QueueItem::Close => {
                &&& *final(options) == *old(options)
                &&& a == WorkerAction::CloseConnection
            },
        },
{
    match item {
        QueueItem::Request { command, ticket } => {
            let plan = send_plan(options, command.expects_response);
            if let SendPlan::Refuse = plan {
                WorkerAction::Reject { ticket }
            } else {
                WorkerAction::Transmit { payload: command.payload, ticket, plan }
            }
        },
        QueueItem::OptionsUpdate { options: new_options } => {
            *options = new_options;
            WorkerAction::Updated
        },
        QueueItem::Close => WorkerAction::CloseConnection,
    }
}

// MARK: The meaning of a whole run

/// The result a waiting caller sees for each read outcome.
pub open spec fn spec_wait_result(e: SpecReadOutcome) -> Result<Seq<u8>, ConnectionError> {
    match e {
        SpecReadOutcome::Frame(f) => Ok(f),
        SpecReadOutcome::TimedOut => Err(ConnectionError::Timeout),
        SpecReadOutcome::Closed => Err(ConnectionError::ConnectionClosed),
        SpecReadOutcome::TransportFailed => Err(ConnectionError::Transport),
    }
}

/// The results for requests that were still queued when the worker stopped:
/// each fails with ConnectionClosed, none is left hanging.
pub open spec fn failed_deliveries(items: Seq<SpecQueueItem>) -> Seq<SpecDelivery>
    decreases items.len(),
{
    if items.len() == 0 {
        Seq::empty()
    } else {
        match items[0] {
            SpecQueueItem::Request { command: _, ticket } => seq![
                SpecDelivery { ticket, result: Err(ConnectionError::ConnectionClosed) },
            ] + failed_deliveries(items.drop_first()),
            _ => failed_deliveries(items.drop_first()),
        }
    }
}

/// What one run of the worker over a queue means.
pub struct SpecRun {
    /// The result each request's caller receives, in queue order.
    pub deliveries: Seq<SpecDelivery>,
    /// The payloads written to the wire, in queue order.
    pub wire: Seq<Seq<u8>>,
    /// How many read outcomes the waiting requests consumed.
    pub events_used: nat,
}

/// The worker's processing of a queue, item by item in FIFO order, given
/// the sequence of read outcomes the wire will offer.  Requests that wait
/// consume outcomes in order; a request processed after the outcomes run
/// out sees the connection as closed.  A close marker stops the run and
/// fails every request still behind it.
pub open spec fn spec_run(
    items: Seq<SpecQueueItem>,
    options: ConnectOptions,
    events: Seq<SpecReadOutcome>,
) -> SpecRun
    decreases items.len(),
{
    if items.len() == 0 {
        SpecRun { deliveries: Seq::empty(), wire: Seq::empty(), events_used: 0 }
    } else {
        match items[0] {
            SpecQueueItem::Close => SpecRun {
                deliveries: failed_deliveries(items.drop_first()),
                wire: Seq::empty(),
                events_used: 0,
            },
            SpecQueueItem::OptionsUpdate { options: o } => spec_run(
                items.drop_first(),
                o,
                events,
            ),
            SpecQueueItem::Request { command, ticket } => {
                let plan = spec_send_plan(options, command.expects_response);
                if plan == SendPlan::Refuse {
                    let rest = spec_run(items.drop_first(), options, events);
                    SpecRun {
                        deliveries: seq![
                            SpecDelivery {
                                ticket,
                                result: Err(ConnectionError::ConfigurationError),
                            },
                        ] + rest.deliveries,
                        wire: rest.wire,
                        events_used: rest.events_used,
                    }
                } else if plan == SendPlan::NoWait {
                    let rest = spec_run(items.drop_first(), options, events);
                    SpecRun {
                        deliveries: seq![
                            SpecDelivery { ticket, result: Ok(Seq::empty()) },
                        ] + rest.deliveries,
                        wire: seq![command.payload] + rest.wire,
                        events_used: rest.events_used,
                    }
                } else {
                    let outcome = if events.len() > 0 {
                        events[0]
                    } else {
                        SpecReadOutcome::Closed
                    };
                    let remaining = if events.len() > 0 {
                        events.drop_first()
                    } else {
                        events
                    };
                    let used_now: nat = if events.len() > 0 {
                        1nat
                    } else {
                        0nat
                    };
                    let rest = spec_run(items.drop_first(), options, remaining);
                    SpecRun {
                        deliveries: seq![
                            SpecDelivery { ticket, result: spec_wait_result(outcome) },
                        ] + rest.deliveries,
                        wire: seq![command.payload] + rest.wire,
                        events_used: used_now + rest.events_used,
                    }
                }
            },
        }
    }
}

/// Fails every request of a stopped worker's leftover queue with
/// ConnectionClosed.
fn fail_rest(items: Vec<QueueItem>) -> (r: Vec<Delivery>)
    ensures
        r@.map_values(|d: Delivery| d@) == failed_deliveries(
            items@.map_values(|it: QueueItem| it@),
        ),
    decreases items@.len(),
{
    let ghost gitems = items@.map_values(|it: QueueItem| it@);
    let mut items = items;
    if items.len() == 0 {
        let r: Vec<Delivery> = Vec::new();
        proof {
            assert(r@.map_values(|d: Delivery| d@) =~= failed_deliveries(gitems));
        }
        return r;
    }
    let first = items.remove(0);
    proof {
        assert(items@.map_values(|it: QueueItem| it@) =~= gitems.drop_first());
    }
    match first {
        QueueItem::Request { command: _, ticket } => {
            let mut r = fail_rest(items);
            r.insert(0, Delivery { ticket, result: Err(ConnectionError::ConnectionClosed) });
            proof {
                assert(r@.map_values(|d: Delivery| d@) =~= failed_deliveries(gitems));
            }
            r
        },
        QueueItem::OptionsUpdate { .. } => fail_rest(items),
        QueueItem::Close => fail_rest(items),
    }
}

/// Processes a whole queue against the given sequence of read outcomes and
/// returns what every caller received and what went on the wire, exactly as
/// [`spec_run`] says.
pub fn run_worker(items: Vec<QueueItem>, options: ConnectOptions, events: Vec<ReadOutcome>) -> (r:
    (Vec<Delivery>, Vec<Vec<u8>>))
    ensures
        r.0@.map_values(|d: Delivery| d@) == spec_run(
            items@.map_values(|it: QueueItem| it@),
            options,
            events@.map_values(|e: ReadOutcome| e@),
        ).deliveries,
        r.1@.map_values(|w: Vec<u8>| w@) == spec_run(
            items@.map_values(|it: QueueItem| it@),
            options,
            events@.map_values(|e: ReadOutcome| e@),
        ).wire,
    decreases items@.len(),
{
    let ghost gitems = items@.map_values(|it: QueueItem| it@);
    let ghost gevents = events@.map_values(|e: ReadOutcome| e@);
    let mut items = items;
    let mut events = events;
    if items.len() == 0 {
        let r: (Vec<Delivery>, Vec<Vec<u8>>) = (Vec::new(), Vec::new());
        proof {
            assert(r.0@.map_values(|d: Delivery| d@) =~= spec_run(gitems, options, gevents).deliveries);
            assert(r.1@.map_values(|w: Vec<u8>| w@) =~= spec_run(gitems, options, gevents).wire);
        }
        return r;
    }
    let first = items.remove(0);
    proof {
        assert(items@.map_values(|it: QueueItem| it@) =~= gitems.drop_first());
    }
    match first {
        QueueItem::Close => {
            let ds = fail_rest(items);
            let ws: Vec<Vec<u8>> = Vec::new();
            proof {
                assert(ws@.map_values(|w: Vec<u8>| w@) =~= spec_run(gitems, options, gevents).wire);
            }
            (ds, ws)
        },
        QueueItem::OptionsUpdate { options: new_options } => {
            run_worker(items, new_options, events)
        },
        QueueItem::Request { command, ticket } => {
            let plan = send_plan(&options, command.expects_response);
            match plan {
                SendPlan::Refuse => {
                    let (mut ds, ws) = run_worker(items, options, events);
                    ds.insert(
                        0,
                        Delivery { ticket, result: Err(ConnectionError::ConfigurationError) },
                    );
                    proof {
                        assert(ds@.map_values(|d: Delivery| d@) =~= spec_run(
                            gitems,
                            options,
                            gevents,
                        ).deliveries);
                    }
                    (ds, ws)
                },
                SendPlan::NoWait => {
                    let (mut ds, mut ws) = run_worker(items, options, events);
                    ds.insert(0, Delivery { ticket, result: Ok(Vec::new()) });
                    ws.insert(0, command.payload);
                    proof {
                        assert(ds@.map_values(|d: Delivery| d@) =~= spec_run(
                            gitems,
                            options,
                            gevents,
                        ).deliveries);
                        assert(ws@.map_values(|w: Vec<u8>| w@) =~= spec_run(
                            gitems,
                            options,
                            gevents,
                        ).wire);
                    }
                    (ds, ws)
                },
                _ => {
                    let outcome = if events.len() > 0 {
                        let e = events.remove(0);
                        proof {
                            assert(events@.map_values(|ev: ReadOutcome| ev@)
                                =~= gevents.drop_first());
                        }
                        e
                    } else {
                        ReadOutcome::Closed
                    };
                    let result = complete_send(outcome);
                    let (mut ds, mut ws) = run_worker(items, options, events);
                    ds.insert(0, Delivery { ticket, result });
                    ws.insert(0, command.payload);
                    proof {
                        assert(ds@.map_values(|d: Delivery| d@) =~= spec_run(
                            gitems,
                            options,
                            gevents,
                        ).deliveries);
                        assert(ws@.map_values(|w: Vec<u8>| w@) =~= spec_run(
                            gitems,
                            options,
                            gevents,
                        ).wire);
                    }
                    (ds, ws)
                },
            }
        },
    }
}

// MARK: Laws

/// Whether the item is a request whose command expects a response.
pub open spec fn is_response_request(it: SpecQueueItem) -> bool {
    match it {
        SpecQueueItem::Request { command, .. } => command.expects_response,
        _ => false,
    }
}

/// The ticket of a request item.
pub open spec fn item_ticket(it: SpecQueueItem) -> nat {
    match it {
        SpecQueueItem::Request { ticket, .. } => ticket,
        _ => 0,
    }
}

/// The payload of a request item.
pub open spec fn item_payload(it: SpecQueueItem) -> Seq<u8> {
    match it {
        SpecQueueItem::Request { command, .. } => command.payload,
        _ => Seq::empty(),
    }
}

/// The bytes of a frame outcome.
pub open spec fn frame_of(e: SpecReadOutcome) -> Seq<u8> {
    match e {
        SpecReadOutcome::Frame(f) => f,
        _ => Seq::empty(),
    }
}

/// The tickets of the requests in the queue, oldest first.
pub open spec fn request_tickets(items: Seq<SpecQueueItem>) -> Seq<nat>
    decreases items.len(),
{
    if items.len() == 0 {
        Seq::empty()
    } else {
        match items[0] {
            SpecQueueItem::Request { ticket, .. } => seq![ticket] + request_tickets(
                items.drop_first(),
            ),
            _ => request_tickets(items.drop_first()),
        }
    }
}

proof fn lemma_failed_tickets(items: Seq<SpecQueueItem>)
    ensures
        failed_deliveries(items).map_values(|d: SpecDelivery| d.ticket) == request_tickets(items),
    decreases items.len(),
{
    if items.len() == 0 {
        assert(failed_deliveries(items).map_values(|d: SpecDelivery| d.ticket) =~= request_tickets(
            items,
        ));
    } else {
        lemma_failed_tickets(items.drop_first());
        assert(failed_deliveries(items).map_values(|d: SpecDelivery| d.ticket) =~= request_tickets(
            items,
        ));
    }
}

/// No caller is left hanging: over any queue, any options and any sequence
/// of read outcomes, every request — those the worker sends and those still
/// queued behind a close marker — receives exactly one result, and the
/// deliveries carry the requests' tickets in queue order.  With a queue of
/// requests followed by one close marker, this is graceful shutdown: each
/// of them is answered, with its send's result or with ConnectionClosed,
/// before the worker stops.
pub proof fn lemma_every_request_answered(
    items: Seq<SpecQueueItem>,
    options: ConnectOptions,
    events: Seq<SpecReadOutcome>,
)
    ensures
        spec_run(items, options, events).deliveries.map_values(|d: SpecDelivery| d.ticket)
            == request_tickets(items),
    decreases items.len(),
{
    if items.len() == 0 {
        assert(spec_run(items, options, events).deliveries.map_values(|d: SpecDelivery| d.ticket)
            =~= request_tickets(items));
    } else {
        match items[0] {
            SpecQueueItem::Close => {
                lemma_failed_tickets(items.drop_first());
                assert(spec_run(items, options, events).deliveries.map_values(
                    |d: SpecDelivery| d.ticket,
                ) =~= request_tickets(items));
            },
            SpecQueueItem::OptionsUpdate { options: o } => {
                lemma_every_request_answered(items.drop_first(), o, events);
                assert(spec_run(items, options, events).deliveries.map_values(
                    |d: SpecDelivery| d.ticket,
                ) =~= request_tickets(items));
            },
            SpecQueueItem::Request { command, ticket } => {
                let plan = spec_send_plan(options, command.expects_response);
                if plan == SendPlan::Refuse || plan == SendPlan::NoWait {
                    lemma_every_request_answered(items.drop_first(), options, events);
                } else {
                    let remaining = if events.len() > 0 {
                        events.drop_first()
                    } else {
                        events
                    };
                    lemma_every_request_answered(items.drop_first(), options, remaining);
                }
                assert(spec_run(items, options, events).deliveries.map_values(
                    |d: SpecDelivery| d.ticket,
                ) =~= request_tickets(items));
            },
        }
    }
}

/// FIFO correlation: when every queued item is a response-bearing request
/// and the wire answers each in order with a frame, the i-th caller
/// receives exactly the i-th frame — never another caller's — and the
/// request payloads reach the wire in queue order.
pub proof fn lemma_fifo_correlation(
    items: Seq<SpecQueueItem>,
    options: ConnectOptions,
    events: Seq<SpecReadOutcome>,
)
    requires
        forall|i: int| 0 <= i < items.len() ==> is_response_request(#[trigger] items[i]),
        events.len() == items.len(),
        forall|i: int| 0 <= i < events.len() ==> (#[trigger] events[i]) is Frame,
    ensures
        spec_run(items, options, events).deliveries.len() == items.len(),
        forall|i: int| 0 <= i < items.len() ==> (#[trigger] spec_run(
            items,
            options,
            events,
        ).deliveries[i]).ticket == item_ticket(items[i]),
        forall|i: int| 0 <= i < items.len() ==> (#[trigger] spec_run(
            items,
            options,
            events,
        ).deliveries[i]).result == Ok::<Seq<u8>, ConnectionError>(frame_of(events[i])),
        spec_run(items, options, events).wire.len() == items.len(),
        forall|i: int| 0 <= i < items.len() ==> #[trigger] spec_run(items, options, events).wire[i]
            == item_payload(items[i]),
    decreases items.len(),
{
    if items.len() > 0 {
        let command = match items[0] {
            SpecQueueItem::Request { command, .. } => command,
            _ => arbitrary(),
        };
        let plan = spec_send_plan(options, command.expects_response);
        assert(command.expects_response);
        assert(plan != SendPlan::Refuse && plan != SendPlan::NoWait);
        assert forall|i: int| 0 <= i < items.drop_first().len() implies is_response_request(
            #[trigger] items.drop_first()[i],
        ) by {
            assert(items.drop_first()[i] == items[i + 1]);
        }
        assert forall|i: int| 0 <= i < events.drop_first().len() implies (#[trigger] events.drop_first()[i]) is Frame by {
            assert(events.drop_first()[i] == events[i + 1]);
        }
        lemma_fifo_correlation(items.drop_first(), options, events.drop_first());
        let r = spec_run(items, options, events);
        let rest = spec_run(items.drop_first(), options, events.drop_first());
        assert(r.deliveries.len() == items.len());
        assert forall|i: int| 0 <= i < items.len() implies (#[trigger] r.deliveries[i]).ticket
            == item_ticket(items[i]) && r.deliveries[i].result == Ok::<Seq<u8>, ConnectionError>(
            frame_of(events[i]),
        ) by {
            if i > 0 {
                assert(r.deliveries[i] == rest.deliveries[i - 1]);
                assert(items.drop_first()[i - 1] == items[i]);
                assert(events.drop_first()[i - 1] == events[i]);
            }
        }
        assert forall|i: int| 0 <= i < items.len() implies #[trigger] r.wire[i] == item_payload(
            items[i],
        ) by {
            if i > 0 {
                assert(r.wire[i] == rest.wire[i - 1]);
                assert(items.drop_first()[i - 1] == items[i]);
            }
        }
    }
}

/// Fire-and-forget: a request whose command expects no response, under
/// options that do not demand waiting, is answered with an empty response
/// at once; its payload still goes on the wire, and no read outcome is
/// consumed.
pub proof fn lemma_fire_and_forget(
    command: SpecCommand,
    ticket: nat,
    options: ConnectOptions,
    events: Seq<SpecReadOutcome>,
)
    requires
        !command.expects_response,
        !options.always_wait_for_response,
    ensures
        spec_run(seq![SpecQueueItem::Request { command, ticket }], options, events).deliveries
            == seq![SpecDelivery { ticket, result: Ok::<Seq<u8>, ConnectionError>(Seq::empty()) }],
        spec_run(seq![SpecQueueItem::Request { command, ticket }], options, events).wire == seq![
            command.payload,
        ],
        spec_run(seq![SpecQueueItem::Request { command, ticket }], options, events).events_used
            == 0,
{
    let items = seq![SpecQueueItem::Request { command, ticket }];
    assert(items.drop_first() =~= Seq::<SpecQueueItem>::empty());
    let rest = spec_run(items.drop_first(), options, events);
    assert(rest.deliveries == Seq::<SpecDelivery>::empty());
    assert(rest.wire == Seq::<Seq<u8>>::empty());
    assert(rest.events_used == 0);
    let r = spec_run(items, options, events);
    assert(items[0] == SpecQueueItem::Request { command, ticket });
    assert(spec_send_plan(options, command.expects_response) == SendPlan::NoWait);
    assert(r.deliveries =~= seq![
        SpecDelivery { ticket, result: Ok::<Seq<u8>, ConnectionError>(Seq::empty()) },
    ]);
    assert(r.wire =~= seq![command.payload]);
}

/// The payloads the worker writes for a queue under fixed starting
/// options: every request ahead of the first close marker, in queue
/// order, minus those the configuration rejects before any I/O.
pub open spec fn sent_payloads(items: Seq<SpecQueueItem>, options: ConnectOptions) -> Seq<Seq<u8>>
    decreases items.len(),
{
    if items.len() == 0 {
        Seq::empty()
    } else {
        match items[0] {
            SpecQueueItem::Close => Seq::empty(),
            SpecQueueItem::OptionsUpdate { options: o } => sent_payloads(items.drop_first(), o),
            SpecQueueItem::Request { command, ticket: _ } => {
                if spec_send_plan(options, command.expects_response) == SendPlan::Refuse {
                    sent_payloads(items.drop_first(), options)
                } else {
                    seq![command.payload] + sent_payloads(items.drop_first(), options)
                }
            },
        }
    }
}

/// Requests hit the wire in enqueue order, whatever the wire answers:
/// the payloads a run writes are exactly [`sent_payloads`], which does not
/// depend on the read outcomes at all.
pub proof fn lemma_wire_in_queue_order(
    items: Seq<SpecQueueItem>,
    options: ConnectOptions,
    events: Seq<SpecReadOutcome>,
)
    ensures
        spec_run(items, options, events).wire == sent_payloads(items, options),
    decreases items.len(),
{
    if items.len() > 0 {
        match items[0] {
            SpecQueueItem::Close => {},
            SpecQueueItem::OptionsUpdate { options: o } => {
                lemma_wire_in_queue_order(items.drop_first(), o, events);
            },
            SpecQueueItem::Request { command, ticket: _ } => {
                let plan = spec_send_plan(options, command.expects_response);
                if plan == SendPlan::Refuse || plan == SendPlan::NoWait {
                    lemma_wire_in_queue_order(items.drop_first(), options, events);
                } else {
                    let remaining = if events.len() > 0 {
                        events.drop_first()
                    } else {
                        events
                    };
                    lemma_wire_in_queue_order(items.drop_first(), options, remaining);
                }
            },
        }
    }
}

spec fn ticket_comes_from_request(items: Seq<SpecQueueItem>, t: nat) -> bool {
    exists|i: int|
        0 <= i < items.len() && (#[trigger] items[i]) is Request && t == item_ticket(items[i])
}

proof fn lemma_request_tickets_members(items: Seq<SpecQueueItem>)
    ensures
        forall|k: int| 0 <= k < request_tickets(items).len() ==> ticket_comes_from_request(
            items,
            #[trigger] request_tickets(items)[k],
        ),
    decreases items.len(),
{
    if items.len() > 0 {
        lemma_request_tickets_members(items.drop_first());
        let rest = request_tickets(items.drop_first());
        assert forall|k: int| 0 <= k < request_tickets(items).len() implies ticket_comes_from_request(
            items,
            #[trigger] request_tickets(items)[k],
        ) by {
            match items[0] {
                SpecQueueItem::Request { .. } => {
                    if k == 0 {
                        assert(items[0] is Request && request_tickets(items)[0] == item_ticket(
                            items[0],
                        ));
                    } else {
                        assert(request_tickets(items)[k] == rest[k - 1]);
                        assert(ticket_comes_from_request(items.drop_first(), rest[k - 1]));
                        let i0 = choose|i0: int|
                            0 <= i0 < items.drop_first().len() && (#[trigger] items.drop_first()[i0]) is Request
                                && rest[k - 1] == item_ticket(items.drop_first()[i0]);
                        assert(items.drop_first()[i0] == items[i0 + 1]);
                        assert(items[i0 + 1] is Request && request_tickets(items)[k]
                            == item_ticket(items[i0 + 1]));
                    }
                },
                _ => {
                    assert(request_tickets(items)[k] == rest[k]);
                    assert(ticket_comes_from_request(items.drop_first(), rest[k]));
                    let i0 = choose|i0: int|
                        0 <= i0 < items.drop_first().len() && (#[trigger] items.drop_first()[i0]) is Request
                            && rest[k] == item_ticket(items.drop_first()[i0]);
                    assert(items.drop_first()[i0] == items[i0 + 1]);
                    assert(items[i0 + 1] is Request && request_tickets(items)[k] == item_ticket(
                        items[i0 + 1],
                    ));
                },
            }
        }
    }
}

proof fn lemma_request_tickets_distinct(items: Seq<SpecQueueItem>)
    requires
        tickets_increasing(items),
    ensures
        forall|i: int, j: int| 0 <= i < j < request_tickets(items).len()
            ==> #[trigger] request_tickets(items)[i] < #[trigger] request_tickets(items)[j],
    decreases items.len(),
{
    if items.len() > 0 {
        assert forall|i: int, j: int|
            0 <= i < j < items.drop_first().len() && (#[trigger] items.drop_first()[i]) is Request
                && (#[trigger] items.drop_first()[j]) is Request implies item_ticket(
            items.drop_first()[i],
        ) < item_ticket(items.drop_first()[j]) by {
            assert(items.drop_first()[i] == items[i + 1]);
            assert(items.drop_first()[j] == items[j + 1]);
        }
        lemma_request_tickets_distinct(items.drop_first());
        lemma_request_tickets_members(items.drop_first());
        let rest = request_tickets(items.drop_first());
        assert forall|i: int, j: int| 0 <= i < j < request_tickets(items).len() implies #[trigger] request_tickets(
            items,
        )[i] < #[trigger] request_tickets(items)[j] by {
            match items[0] {
                SpecQueueItem::Request { .. } => {
                    if i == 0 {
                        assert(request_tickets(items)[j] == rest[j - 1]);
                        assert(ticket_comes_from_request(items.drop_first(), rest[j - 1]));
                        let i0 = choose|i0: int|
                            0 <= i0 < items.drop_first().len() && (#[trigger] items.drop_first()[i0]) is Request
                                && rest[j - 1] == item_ticket(items.drop_first()[i0]);
                        assert(items.drop_first()[i0] == items[i0 + 1]);
                        assert(item_ticket(items[0]) < item_ticket(items[i0 + 1]));
                    } else {
                        assert(request_tickets(items)[i] == rest[i - 1]);
                        assert(request_tickets(items)[j] == rest[j - 1]);
                    }
                },
                _ => {
                    assert(request_tickets(items)[i] == rest[i]);
                    assert(request_tickets(items)[j] == rest[j]);
                },
            }
        }
    }
}

/// A completion slot is fulfilled exactly once: over a queue whose pending
/// requests hold strictly increasing tickets — as every well-formed
/// [`CommandQueue`] hands them out — no two deliveries of a run carry the
/// same ticket, so no caller can receive another caller's response.
pub proof fn lemma_each_slot_fulfilled_once(
    items: Seq<SpecQueueItem>,
    options: ConnectOptions,
    events: Seq<SpecReadOutcome>,
)
    requires
        tickets_increasing(items),
    ensures
        forall|i: int, j: int|
            0 <= i < j < spec_run(items, options, events).deliveries.len()
                ==> (#[trigger] spec_run(items, options, events).deliveries[i]).ticket != (
            #[trigger] spec_run(items, options, events).deliveries[j]).ticket,
{
    lemma_every_request_answered(items, options, events);
    lemma_request_tickets_distinct(items);
    let ds = spec_run(items, options, events).deliveries;
    assert forall|i: int, j: int| 0 <= i < j < ds.len() implies (#[trigger] ds[i]).ticket != (
        #[trigger] ds[j]).ticket by {
        assert(ds.map_values(|d: SpecDelivery| d.ticket)[i] == ds[i].ticket);
        assert(ds.map_values(|d: SpecDelivery| d.ticket)[j] == ds[j].ticket);
        assert(request_tickets(items)[i] < request_tickets(items)[j]);
    }
}

} // verus!
