//! The life of one client: what to do with its stream, and in which order.
//!
//! The stream to the device never blocks. Each round of the loop reads what the
//! device sent, polls the connections, cleans up now and then, and writes what
//! waits for the device; a round in which nothing moved ends with a short sleep.

use vstd::prelude::*;

use crate::io_error::{ErrorKind, IoError};
use crate::relay::client::{Client, ClientState};
use crate::relay::clock::{elapsed, NANOS_PER_SECOND};
use crate::relay::connection::Connection;
use crate::relay::router::Routes;
#[allow(unused_imports)]
use crate::relay::client::new_client;
#[allow(unused_imports)]
use crate::relay::clock::age;
#[allow(unused_imports)]
use crate::relay::router::{
    active, closed_down, distinct, idle, law_clean_up_removes_exactly_the_idle,
    law_open_connections_stay, leaves, leaving, serves, surviving,
};
#[allow(unused_imports)]
use crate::text::optional_text;

verus! {

/// The seconds between two clean-ups of idle connections.
pub const CLEANUP_INTERVAL_SECONDS: u64 = 5;

/// How long a round without progress sleeps, in milliseconds.
pub const IDLE_SLEEP_MILLIS: u64 = 1;

/// Numbers the clients, from one on.
pub struct ClientIds {
    next: u32,
}

/// The number after a number. The numbers start over past their maximum.
pub open spec fn following(id: u32) -> u32 {
    ((id + 1) % 0x1_0000_0000) as u32
}

impl ClientIds {
    /// The number of the next client.
    pub closed spec fn view(&self) -> u32 {
        self.next
    }

    /// No client was numbered yet.
    pub fn new() -> (ids: ClientIds)
        ensures
            ids@ == 1,
    {
        ClientIds { next: 1 }
    }

    /// Numbers one more client. The numbers start over past their maximum.
    pub fn assign(&mut self) -> (id: u32)
        ensures
            id == old(self)@,
            final(self)@ == following(old(self)@),
    {
        let id: u32 = self.next;
        self.next = id.wrapping_add(1);
        id
    }
}

/// The bytes of a number, the most significant first.
pub open spec fn big_endian(id: u32) -> Seq<u8> {
    seq![
        ((id >> 24) & 0xff) as u8,
        ((id >> 16) & 0xff) as u8,
        ((id >> 8) & 0xff) as u8,
        (id & 0xff) as u8,
    ]
}

/// What the relay writes first to a device: the number of the client.
pub fn greeting(id: u32) -> (bytes: Vec<u8>)
    ensures
        bytes@ == big_endian(id),
{
    let mut bytes: Vec<u8> = Vec::new();
    bytes.push(((id >> 24) & 0xff) as u8);
    bytes.push(((id >> 16) & 0xff) as u8);
    bytes.push(((id >> 8) & 0xff) as u8);
    bytes.push((id & 0xff) as u8);
    assert(bytes@ =~= big_endian(id));
    bytes
}

/// Numbers a device that connected and creates its client, together with the
/// greeting that tells the device its number.
pub fn welcome<C: Connection>(ids: &mut ClientIds, serial: Option<String>) -> (r: Result<
    (Client<C>, Vec<u8>),
    IoError,
>)
    ensures
        final(ids)@ == following(old(ids)@),
        r matches Ok((client, bytes)) && client.wf() && client@ == new_client::<C>(
            old(ids)@,
            optional_text(serial),
        ) && bytes@ == big_endian(old(ids)@),
{
    let id: u32 = ids.assign();
    match Client::create(id, serial) {
        Ok(client) => Ok((client, greeting(id))),
        Err(e) => Err(e),
    }
}

/// The number of the client that comes after `n` others.
pub open spec fn number_after(n: nat) -> u32
    decreases n,
{
    if n == 0 {
        1
    } else {
        following(number_after((n - 1) as nat))
    }
}

/// The clients are numbered one, two, three and so on, until the numbers start
/// over.
pub proof fn law_clients_are_counted(n: nat)
    ensures
        number_after(n) == (n + 1) % 0x1_0000_0000,
        n < u32::MAX ==> number_after(n) == n + 1,
    decreases n,
{
    if n > 0 {
        law_clients_are_counted((n - 1) as nat);
    }
}

/// How long to sleep in a stage, in milliseconds.
pub fn sleep_millis(stage: LoopStage) -> (r: Option<u64>)
    ensures
        r == (if stage == LoopStage::Sleep {
            Some(1u64)
        } else {
            None
        }),
{
    match stage {
        LoopStage::Sleep => Some(IDLE_SLEEP_MILLIS),
        _ => None,
    }
}

/// What is done next for a client.
#[derive(Clone, Copy, Debug, PartialEq, Eq, Structural)]
pub enum LoopStage {
    /// Make the stream non-blocking.
    Configure,
    /// Number and create the client, and write its greeting.
    Greet,
    /// See whether the client was closed.
    Check,
    /// Read from the stream.
    Read,
    /// Feed what was read to the client.
    Feed,
    /// Poll the connections right after feeding them.
    PollFed,
    /// Poll the connections.
    Poll,
    /// Look at the clock.
    Time,
    /// Clean up idle connections.
    Clean,
    /// Take out what waits for the device.
    Drain,
    /// Write it to the stream.
    Write,
    /// Sleep a little.
    Sleep,
    /// Close the client.
    Close,
    /// It is over.
    Stopped,
}

/// What came of a read or a write.
#[derive(Clone, Copy, Debug, PartialEq, Eq, Structural)]
pub enum StreamOutcome {
    /// This many bytes went through.
    Moved(usize),
    /// Nothing could be done right now.
    WouldBlock,
    /// The stream failed.
    Failed,
}

/// What came of what was done.
#[derive(Clone, Copy, Debug, PartialEq, Eq, Structural)]
pub enum LoopEvent {
    /// The step was taken.
    Done,
    /// The step was tried and failed.
    Failed,
    /// Whether the client is closed, or was asked to.
    Closed(bool),
    /// What came of the read.
    Read(StreamOutcome),
    /// The time.
    Time(u64),
    /// How many bytes wait for the device.
    Drained(usize),
}

/// Where the loop of a client stands.
#[derive(Clone, Copy, Debug, PartialEq, Eq, Structural)]
pub struct ClientLoop {
    pub stage: LoopStage,
    /// Whether this round moved any data.
    pub made_progress: bool,
    /// The time of the last clean-up.
    pub last_cleanup: u64,
}

/// What a read or a write on a stream amounts to.
pub open spec fn outcome_of(outcome: Result<usize, IoError>) -> StreamOutcome {
    match outcome {
        Ok(n) => StreamOutcome::Moved(n),
        Err(e) => if e.kind == ErrorKind::WouldBlock {
            StreamOutcome::WouldBlock
        } else {
            StreamOutcome::Failed
        },
    }
}

/// Sorts what came of a read or a write on a stream.
pub fn sort_outcome(outcome: &Result<usize, IoError>) -> (r: StreamOutcome)
    ensures
        r == outcome_of(*outcome),
{
    match outcome {
        Ok(n) => StreamOutcome::Moved(*n),
        Err(e) => if e.kind == ErrorKind::WouldBlock {
            StreamOutcome::WouldBlock
        } else {
            StreamOutcome::Failed
        },
    }
}

/// Whether the event is an answer to the stage.
pub open spec fn fits(stage: LoopStage, event: LoopEvent) -> bool {
    match stage {
        LoopStage::Configure | LoopStage::Greet | LoopStage::Write => event is Done
            || event is Failed,
        LoopStage::Check | LoopStage::PollFed => event is Closed,
        LoopStage::Read => event is Read,
        LoopStage::Time => event is Time,
        LoopStage::Drain => event is Drained,
        LoopStage::Stopped => false,
        _ => event is Done,
    }
}

/// The loop at the end of a round.
pub open spec fn round_over(run: ClientLoop) -> ClientLoop {
    ClientLoop {
        stage: if run.made_progress {
            LoopStage::Check
        } else {
            LoopStage::Sleep
        },
        ..run
    }
}

/// Whether it is time to clean up.
pub open spec fn cleanup_due(last_cleanup: u64, now: u64) -> bool {
    age(last_cleanup, now) / NANOS_PER_SECOND >= CLEANUP_INTERVAL_SECONDS
}

/// Where the loop goes from here.
pub open spec fn goes_on(run: ClientLoop, event: LoopEvent) -> ClientLoop {
    match (run.stage, event) {
        (LoopStage::Configure, LoopEvent::Done) => ClientLoop { stage: LoopStage::Greet, ..run },
        (LoopStage::Greet, LoopEvent::Done) => ClientLoop { stage: LoopStage::Check, ..run },
        // a closed client is not served any more
        (LoopStage::Check, LoopEvent::Closed(closed)) => if closed {
            ClientLoop { stage: LoopStage::Stopped, ..run }
        } else {
            ClientLoop { stage: LoopStage::Read, made_progress: false, ..run }
        },
        // a read of nothing is the end of the stream
        (LoopStage::Read, LoopEvent::Read(StreamOutcome::Moved(n))) => if n == 0 {
            ClientLoop { stage: LoopStage::Close, ..run }
        } else {
            ClientLoop { stage: LoopStage::Feed, made_progress: true, ..run }
        },
        (LoopStage::Read, LoopEvent::Read(StreamOutcome::WouldBlock)) => ClientLoop {
            stage: LoopStage::Poll,
            ..run
        },
        (LoopStage::Read, LoopEvent::Read(StreamOutcome::Failed)) => ClientLoop {
            stage: LoopStage::Close,
            ..run
        },
        (LoopStage::Feed, LoopEvent::Done) => ClientLoop { stage: LoopStage::PollFed, ..run },
        (LoopStage::PollFed, LoopEvent::Closed(closed)) => ClientLoop {
            stage: if closed {
                LoopStage::Time
            } else {
                LoopStage::Poll
            },
            ..run
        },
        (LoopStage::Poll, LoopEvent::Done) => ClientLoop { stage: LoopStage::Time, ..run },
        (LoopStage::Time, LoopEvent::Time(now)) => if cleanup_due(run.last_cleanup, now) {
            ClientLoop { stage: LoopStage::Clean, last_cleanup: now, ..run }
        } else {
            ClientLoop { stage: LoopStage::Drain, ..run }
        },
        (LoopStage::Clean, LoopEvent::Done) => ClientLoop { stage: LoopStage::Drain, ..run },
        (LoopStage::Drain, LoopEvent::Drained(n)) => if n > 0 {
            ClientLoop { stage: LoopStage::Write, made_progress: true, ..run }
        } else {
            round_over(run)
        },
        (LoopStage::Write, LoopEvent::Done) => round_over(run),
        (LoopStage::Sleep, LoopEvent::Done) => ClientLoop { stage: LoopStage::Check, ..run },
        // closed, or a first write or a later one failed
        _ => ClientLoop { stage: LoopStage::Stopped, ..run },
    }
}

impl ClientLoop {
    /// The loop for a client whose stream was accepted at `now`.
    pub fn new(now: u64) -> (run: ClientLoop)
        ensures
            run == (ClientLoop {
                stage: LoopStage::Configure,
                made_progress: false,
                last_cleanup: now,
            }),
    {
        ClientLoop { stage: LoopStage::Configure, made_progress: false, last_cleanup: now }
    }

    /// Goes on with what came of the current stage.
    pub fn next(&mut self, event: LoopEvent)
        requires
            fits(old(self).stage, event),
        ensures
            *final(self) == goes_on(*old(self), event),
    {
        match event {
            LoopEvent::Failed => {
                self.stage = LoopStage::Stopped;
            },
            LoopEvent::Closed(closed) => {
                if self.stage == LoopStage::Check {
                    if closed {
                        self.stage = LoopStage::Stopped;
                    } else {
                        self.stage = LoopStage::Read;
                        self.made_progress = false;
                    }
                } else if closed {
                    self.stage = LoopStage::Time;
                } else {
                    self.stage = LoopStage::Poll;
                }
            },
            LoopEvent::Read(outcome) => match outcome {
                StreamOutcome::Moved(n) => {
                    if n == 0 {
                        self.stage = LoopStage::Close;
                    } else {
                        self.made_progress = true;
                        self.stage = LoopStage::Feed;
                    }
                },
                StreamOutcome::WouldBlock => {
                    self.stage = LoopStage::Poll;
                },
                StreamOutcome::Failed => {
                    self.stage = LoopStage::Close;
                },
            },
            LoopEvent::Time(now) => {
                if elapsed(self.last_cleanup, now) / NANOS_PER_SECOND >= CLEANUP_INTERVAL_SECONDS {
                    self.last_cleanup = now;
                    self.stage = LoopStage::Clean;
                } else {
                    self.stage = LoopStage::Drain;
                }
            },
            LoopEvent::Drained(n) => {
                if n > 0 {
                    self.made_progress = true;
                    self.stage = LoopStage::Write;
                } else {
                    self.end_round();
                }
            },
            LoopEvent::Done => match self.stage {
                LoopStage::Configure => {
                    self.stage = LoopStage::Greet;
                },
                LoopStage::Greet => {
                    self.stage = LoopStage::Check;
                },
                LoopStage::Feed => {
                    self.stage = LoopStage::PollFed;
                },
                LoopStage::Poll => {
                    self.stage = LoopStage::Time;
                },
                LoopStage::Clean => {
                    self.stage = LoopStage::Drain;
                },
                LoopStage::Write => {
                    self.end_round();
                },
                LoopStage::Sleep => {
                    self.stage = LoopStage::Check;
                },
                _ => {
                    self.stage = LoopStage::Stopped;
                },
            },
        }
    }

    fn end_round(&mut self)
        ensures
            *final(self) == round_over(*old(self)),
    {
        if self.made_progress {
            self.stage = LoopStage::Check;
        } else {
            self.stage = LoopStage::Sleep;
        }
    }
}

/// What the owner of the stream and of the sockets reports to the loop.
pub enum LoopInput {
    /// What the stage asks for was done.
    Done,
    /// It was tried and failed.
    Failed,
    /// Whether somebody asked for the client to be closed.
    CloseRequested(bool),
    /// What came of the read.
    Read(StreamOutcome),
    /// What came of polling each connection.
    Polled(Vec<Result<(), IoError>>),
    /// The time.
    Time(u64),
}

/// What the loop hands out.
pub enum LoopOutput<C> {
    /// Nothing.
    Nothing,
    /// Connections that were removed, to be let go of.
    Removed(Vec<C>),
    /// Bytes to write to the device.
    Outgoing(Vec<u8>),
}

/// The event that the input amounts to, for a client in this state.
pub open spec fn event_of<C: Connection>(
    client: ClientState<C>,
    stage: LoopStage,
    input: LoopInput,
) -> LoopEvent {
    match stage {
        LoopStage::Check => LoopEvent::Closed(client.closed || input == LoopInput::CloseRequested(
            true,
        )),
        LoopStage::PollFed => LoopEvent::Closed(client.closed),
        LoopStage::Drain => LoopEvent::Drained(client.outgoing.given().len() as usize),
        _ => match input {
            LoopInput::Read(outcome) => LoopEvent::Read(outcome),
            LoopInput::Time(now) => LoopEvent::Time(now),
            LoopInput::Failed => LoopEvent::Failed,
            _ => LoopEvent::Done,
        },
    }
}

/// Whether the input is what the stage of a served client waits for.
pub open spec fn awaited<C: Connection>(
    client: ClientState<C>,
    stage: LoopStage,
    input: LoopInput,
) -> bool {
    match stage {
        LoopStage::Configure | LoopStage::Greet | LoopStage::Stopped => false,
        LoopStage::Check => input is CloseRequested,
        LoopStage::Read => input is Read,
        LoopStage::PollFed | LoopStage::Poll => input matches LoopInput::Polled(outcomes)
            && outcomes@.len() == client.routes.connections.len(),
        LoopStage::Time => input is Time,
        LoopStage::Write => input is Done || input is Failed,
        _ => input is Done,
    }
}

/// What a stage does to the client, and what it hands out.
pub open spec fn served<C: Connection>(
    before: ClientState<C>,
    run: ClientLoop,
    input: LoopInput,
    after: ClientState<C>,
    output: LoopOutput<C>,
) -> bool {
    let connections = before.routes.connections;
    match run.stage {
        // every connection is closed and let go of
        LoopStage::Close => {
            &&& after == (ClientState {
                closed: true,
                routes: Routes { connections: Seq::<C>::empty(), ..before.routes },
                ..before
            })
            &&& output matches LoopOutput::Removed(removed)
            &&& removed@.len() == connections.len()
            &&& forall|i: int|
                0 <= i < removed@.len() ==> closed_down(connections[i], #[trigger] removed@[i])
        },
        // connections that are closed or failed are let go of
        LoopStage::PollFed | LoopStage::Poll => {
            let outcomes = input->Polled_0@;
            let positions = leaving(connections, outcomes);
            &&& after == (ClientState {
                routes: Routes {
                    connections: surviving(connections, outcomes),
                    ..before.routes
                },
                ..before
            })
            &&& output matches LoopOutput::Removed(removed)
            &&& removed@.len() == positions.len()
            &&& forall|i: int|
                0 <= i < removed@.len() ==> leaves(
                    connections[positions[i]],
                    outcomes[positions[i]],
                    #[trigger] removed@[i],
                )
        },
        // connections that were idle for too long are closed and let go of
        LoopStage::Clean => {
            let left = idle(connections, run.last_cleanup);
            &&& after == (ClientState {
                routes: Routes {
                    connections: active(connections, run.last_cleanup),
                    ..before.routes
                },
                ..before
            })
            &&& output matches LoopOutput::Removed(removed)
            &&& removed@.len() == left.len()
            &&& forall|i: int|
                0 <= i < removed@.len() ==> closed_down(left[i], #[trigger] removed@[i])
        },
        // what waits for the device is taken out
        LoopStage::Drain => {
            &&& output matches LoopOutput::Outgoing(bytes)
            &&& bytes@ == before.outgoing.given()
            &&& after == (ClientState { outgoing: before.outgoing.drained(), ..before })
        },
        _ => after == before && output is Nothing,
    }
}

impl<C: Connection> Client<C> {
    /// Serves the client for one stage of its loop: does to the client what the
    /// stage is for, and goes on to the next one.
    pub fn run_blocking(&mut self, run: &mut ClientLoop, input: LoopInput) -> (output: LoopOutput<
        C,
    >)
        requires
            old(self).wf(),
            awaited(old(self)@, old(run).stage, input),
        ensures
            final(self).wf(),
            served(old(self)@, *old(run), input, final(self)@, output),
            *final(run) == goes_on(*old(run), event_of(old(self)@, old(run).stage, input)),
    {
        match input {
            LoopInput::Failed => {
                run.next(LoopEvent::Failed);
                LoopOutput::Nothing
            },
            LoopInput::CloseRequested(requested) => {
                run.next(LoopEvent::Closed(self.is_closed() || requested));
                LoopOutput::Nothing
            },
            LoopInput::Read(outcome) => {
                run.next(LoopEvent::Read(outcome));
                LoopOutput::Nothing
            },
            LoopInput::Polled(outcomes) => {
                let removed = self.poll_network_connections(&outcomes);
                if run.stage == LoopStage::PollFed {
                    run.next(LoopEvent::Closed(self.is_closed()));
                } else {
                    run.next(LoopEvent::Done);
                }
                LoopOutput::Removed(removed)
            },
            LoopInput::Time(now) => {
                run.next(LoopEvent::Time(now));
                LoopOutput::Nothing
            },
            LoopInput::Done => match run.stage {
                LoopStage::Close => {
                    let removed = self.close();
                    run.next(LoopEvent::Done);
                    LoopOutput::Removed(removed)
                },
                LoopStage::Clean => {
                    let removed = self.clean_expired_connections(run.last_cleanup);
                    run.next(LoopEvent::Done);
                    LoopOutput::Removed(removed)
                },
                LoopStage::Drain => {
                    let bytes = self.drain_outgoing();
                    run.next(LoopEvent::Drained(bytes.len()));
                    LoopOutput::Outgoing(bytes)
                },
                _ => {
                    run.next(LoopEvent::Done);
                    LoopOutput::Nothing
                },
            },
        }
    }
}

/// The loop after these events.
pub open spec fn after(run: ClientLoop, events: Seq<LoopEvent>) -> ClientLoop
    decreases events.len(),
{
    if events.len() == 0 {
        run
    } else {
        goes_on(after(run, events.drop_last()), events.last())
    }
}

/// Whether each event answers the stage that it comes in.
pub open spec fn follows(run: ClientLoop, events: Seq<LoopEvent>) -> bool
    decreases events.len(),
{
    if events.len() == 0 {
        true
    } else {
        &&& follows(run, events.drop_last())
        &&& fits(after(run, events.drop_last()).stage, events.last())
    }
}

/// What holds at every moment of the loop: a round sleeps only if it moved no
/// data, and what was fed or is written counts as progress.
pub open spec fn sound(run: ClientLoop) -> bool {
    &&& run.stage == LoopStage::Sleep ==> !run.made_progress
    &&& run.stage == LoopStage::Feed || run.stage == LoopStage::PollFed || run.stage
        == LoopStage::Write ==> run.made_progress
}

/// Whether the greeting was written at one of these events.
pub open spec fn greeted(run: ClientLoop, events: Seq<LoopEvent>) -> bool {
    exists|k: int|
        0 <= k < events.len() && after(run, #[trigger] events.take(k)).stage == LoopStage::Greet
            && events[k] == LoopEvent::Done
}

/// The relay writes first: nothing is read from a device, and nothing else is
/// written to it, before its greeting was written.
pub proof fn law_greeting_comes_first(now: u64, events: Seq<LoopEvent>)
    requires
        follows(
            ClientLoop { stage: LoopStage::Configure, made_progress: false, last_cleanup: now },
            events,
        ),
    ensures
        ({
            let run = ClientLoop {
                stage: LoopStage::Configure,
                made_progress: false,
                last_cleanup: now,
            };
            let stage = after(run, events).stage;
            stage == LoopStage::Configure || stage == LoopStage::Greet || stage
                == LoopStage::Stopped || greeted(run, events)
        }),
    decreases events.len(),
{
    let run = ClientLoop {
        stage: LoopStage::Configure,
        made_progress: false,
        last_cleanup: now,
    };
    if events.len() > 0 {
        let earlier = events.drop_last();
        let last = events.len() - 1;
        law_greeting_comes_first(now, earlier);
        assert(events.take(last) =~= earlier);
        if greeted(run, earlier) {
            let k = choose|k: int|
                0 <= k < earlier.len() && after(run, #[trigger] earlier.take(k)).stage
                    == LoopStage::Greet && earlier[k] == LoopEvent::Done;
            assert(events.take(k) =~= earlier.take(k));
            assert(events[k] == earlier[k]);
        } else if after(run, earlier).stage == LoopStage::Greet {
            assert(events[last] == events.last());
        }
    }
}

/// However the loop goes, a round sleeps only if it moved no data.
pub proof fn law_sleeps_only_when_idle(now: u64, events: Seq<LoopEvent>)
    requires
        follows(
            ClientLoop { stage: LoopStage::Configure, made_progress: false, last_cleanup: now },
            events,
        ),
    ensures
        sound(
            after(
                ClientLoop { stage: LoopStage::Configure, made_progress: false, last_cleanup: now },
                events,
            ),
        ),
    decreases events.len(),
{
    if events.len() > 0 {
        law_sleeps_only_when_idle(now, events.drop_last());
    }
}

/// Once the loop has stopped it takes no further step, and a device that closes
/// its stream, or whose stream fails, has its client closed and the loop
/// stopped.
pub proof fn law_end_of_stream_stops(run: ClientLoop, outcome: StreamOutcome)
    requires
        run.stage == LoopStage::Read,
        outcome == StreamOutcome::Moved(0) || outcome == StreamOutcome::Failed,
    ensures
        goes_on(run, LoopEvent::Read(outcome)).stage == LoopStage::Close,
        goes_on(goes_on(run, LoopEvent::Read(outcome)), LoopEvent::Done).stage
            == LoopStage::Stopped,
        forall|event: LoopEvent| !fits(LoopStage::Stopped, event),
{
}

/// A closed client is not read from again: the loop stops where it next looks.
pub proof fn law_closed_client_is_left(run: ClientLoop)
    requires
        run.stage == LoopStage::Check,
    ensures
        goes_on(run, LoopEvent::Closed(true)).stage == LoopStage::Stopped,
        goes_on(run, LoopEvent::Closed(false)).stage == LoopStage::Read,
{
}

/// Clean-ups are five seconds apart, and one is due as soon as five seconds
/// passed since the last.
pub proof fn law_cleanups_are_apart(run: ClientLoop, now: u64)
    requires
        run.stage == LoopStage::Time,
        run.last_cleanup <= now,
    ensures
        goes_on(run, LoopEvent::Time(now)).stage == LoopStage::Clean <==> now - run.last_cleanup
            >= CLEANUP_INTERVAL_SECONDS * NANOS_PER_SECOND,
        goes_on(run, LoopEvent::Time(now)).last_cleanup == (if goes_on(
            run,
            LoopEvent::Time(now),
        ).stage == LoopStage::Clean {
            now
        } else {
            run.last_cleanup
        }),
{
}

/// A failed first write, or a failed later one, ends the loop; a client is greeted
/// right after its stream was set up, and served right after its greeting.
pub proof fn law_client_is_greeted_and_served(run: ClientLoop)
    ensures
        run.stage == LoopStage::Configure ==> goes_on(run, LoopEvent::Done).stage
            == LoopStage::Greet,
        run.stage == LoopStage::Greet ==> goes_on(run, LoopEvent::Done).stage == LoopStage::Check,
        run.stage == LoopStage::Configure || run.stage == LoopStage::Greet || run.stage
            == LoopStage::Write ==> goes_on(run, LoopEvent::Failed).stage == LoopStage::Stopped,
        run.stage == LoopStage::Close ==> goes_on(run, LoopEvent::Done).stage
            == LoopStage::Stopped,
{
}

/// A round in which nothing moves polls the connections once, looks at the clock,
/// cleans up where that is due, sleeps once and starts over.
pub proof fn law_idle_round(run: ClientLoop, now: u64)
    requires
        run.stage == LoopStage::Check,
    ensures
        ({
            let reading = goes_on(run, LoopEvent::Closed(false));
            let polling = goes_on(reading, LoopEvent::Read(StreamOutcome::WouldBlock));
            let timing = goes_on(polling, LoopEvent::Done);
            let timed = goes_on(timing, LoopEvent::Time(now));
            let due = run.last_cleanup <= now && now - run.last_cleanup >= 5_000_000_000;
            let draining = if due {
                goes_on(timed, LoopEvent::Done)
            } else {
                timed
            };
            let sleeping = goes_on(draining, LoopEvent::Drained(0));
            let over = goes_on(sleeping, LoopEvent::Done);
            &&& reading.stage == LoopStage::Read
            &&& polling.stage == LoopStage::Poll
            &&& timing.stage == LoopStage::Time
            &&& due ==> timed.stage == LoopStage::Clean && timed.last_cleanup == now
            &&& !due ==> timed.last_cleanup == run.last_cleanup
            &&& draining.stage == LoopStage::Drain
            &&& sleeping.stage == LoopStage::Sleep
            &&& over.stage == LoopStage::Check
            &&& over.last_cleanup == timed.last_cleanup
        }),
{
}

/// A round in which the device sent something feeds it to the client, polls the
/// connections right after that and once more, and starts over without a sleep,
/// after what waits for the device was written.
pub proof fn law_round_with_data(run: ClientLoop, n: usize, now: u64, waiting: usize)
    requires
        run.stage == LoopStage::Check,
        n > 0,
        run.last_cleanup <= now,
        now - run.last_cleanup < 5_000_000_000,
    ensures
        ({
            let reading = goes_on(run, LoopEvent::Closed(false));
            let feeding = goes_on(reading, LoopEvent::Read(StreamOutcome::Moved(n)));
            let polling_fed = goes_on(feeding, LoopEvent::Done);
            let polling = goes_on(polling_fed, LoopEvent::Closed(false));
            let timing = goes_on(polling, LoopEvent::Done);
            let draining = goes_on(timing, LoopEvent::Time(now));
            let drained = goes_on(draining, LoopEvent::Drained(waiting));
            let over = if waiting > 0 {
                goes_on(drained, LoopEvent::Done)
            } else {
                drained
            };
            &&& feeding.stage == LoopStage::Feed
            &&& polling_fed.stage == LoopStage::PollFed
            &&& polling.stage == LoopStage::Poll
            &&& timing.stage == LoopStage::Time
            &&& draining.stage == LoopStage::Drain
            &&& waiting > 0 ==> drained.stage == LoopStage::Write
            &&& over.stage == LoopStage::Check
            &&& over.last_cleanup == run.last_cleanup
            &&& goes_on(polling_fed, LoopEvent::Closed(true)).stage == LoopStage::Time
        }),
{
}

/// Whatever waits for the device is written in the same round, also where the
/// device sent nothing, and such a round does not sleep.
pub proof fn law_waiting_data_is_written(run: ClientLoop, waiting: usize)
    requires
        run.stage == LoopStage::Drain,
        waiting > 0,
    ensures
        goes_on(run, LoopEvent::Drained(waiting)).stage == LoopStage::Write,
        goes_on(goes_on(run, LoopEvent::Drained(waiting)), LoopEvent::Done).stage
            == LoopStage::Check,
        run.made_progress ==> goes_on(run, LoopEvent::Drained(0)).stage == LoopStage::Check,
        !run.made_progress ==> goes_on(run, LoopEvent::Drained(0)).stage == LoopStage::Sleep,
{
}

/// The time of the last clean-up changes only where the clock was looked at and a
/// clean-up is due, and progress is forgotten only where a new round starts.
pub proof fn law_loop_remembers(run: ClientLoop, event: LoopEvent)
    requires
        fits(run.stage, event),
    ensures
        run.stage != LoopStage::Time ==> goes_on(run, event).last_cleanup == run.last_cleanup,
        run.made_progress && run.stage != LoopStage::Check ==> goes_on(run, event).made_progress,
        !run.made_progress && goes_on(run, event).made_progress ==> goes_on(run, event).stage
            == LoopStage::Feed || goes_on(run, event).stage == LoopStage::Write,
{
}

/// The loop learns from the client and from what is reported exactly this: whether
/// the client is closed or was asked to be, what was read, what time it is, how
/// many bytes were taken out for the device, and whether the write failed.
pub proof fn law_loop_is_told_the_truth<C: Connection>(
    client: ClientState<C>,
    requested: bool,
    outcome: StreamOutcome,
    now: u64,
    polled: Vec<Result<(), IoError>>,
)
    ensures
        event_of(client, LoopStage::Check, LoopInput::CloseRequested(requested))
            == LoopEvent::Closed(client.closed || requested),
        event_of(client, LoopStage::Read, LoopInput::Read(outcome)) == LoopEvent::Read(outcome),
        event_of(client, LoopStage::Feed, LoopInput::Done) == LoopEvent::Done,
        event_of(client, LoopStage::PollFed, LoopInput::Polled(polled)) == LoopEvent::Closed(
            client.closed,
        ),
        event_of(client, LoopStage::Poll, LoopInput::Polled(polled)) == LoopEvent::Done,
        event_of(client, LoopStage::Time, LoopInput::Time(now)) == LoopEvent::Time(now),
        event_of(client, LoopStage::Clean, LoopInput::Done) == LoopEvent::Done,
        !client.outgoing.busy ==> event_of(client, LoopStage::Drain, LoopInput::Done)
            == LoopEvent::Drained(client.outgoing.bytes.len() as usize),
        client.outgoing.busy ==> event_of(client, LoopStage::Drain, LoopInput::Done)
            == LoopEvent::Drained(0),
        event_of(client, LoopStage::Write, LoopInput::Done) == LoopEvent::Done,
        event_of(client, LoopStage::Write, LoopInput::Failed) == LoopEvent::Failed,
        event_of(client, LoopStage::Sleep, LoopInput::Done) == LoopEvent::Done,
        event_of(client, LoopStage::Close, LoopInput::Done) == LoopEvent::Done,
{
}

/// The loop changes the client only where it closes it, polls, cleans up or takes
/// out what waits for the device; it never touches the number, the serial, the
/// label or the bytes that were not read yet, and it closes the client only at the
/// end.
pub proof fn law_loop_leaves_the_client_alone<C: Connection>(
    before: ClientState<C>,
    run: ClientLoop,
    input: LoopInput,
    after: ClientState<C>,
    output: LoopOutput<C>,
)
    requires
        served(before, run, input, after, output),
    ensures
        run.stage != LoopStage::Close && run.stage != LoopStage::PollFed && run.stage
            != LoopStage::Poll && run.stage != LoopStage::Clean && run.stage != LoopStage::Drain
            ==> after == before && output is Nothing,
        after.id == before.id,
        after.serial == before.serial,
        after.label == before.label,
        after.unread == before.unread,
        after.routes.client == before.routes.client,
        after.routes.client_label == before.routes.client_label,
        after.routes.has_buffer == before.routes.has_buffer,
        run.stage != LoopStage::Drain ==> after.outgoing == before.outgoing,
        run.stage == LoopStage::Drain ==> after.routes == before.routes,
        run.stage != LoopStage::Close ==> after.closed == before.closed,
        run.stage == LoopStage::Close ==> after.closed,
{
}

/// Closing a client closes every connection and lets go of it.
pub proof fn law_closing_lets_go_of_everything<C: Connection>(
    before: ClientState<C>,
    run: ClientLoop,
    input: LoopInput,
    after: ClientState<C>,
    output: LoopOutput<C>,
)
    requires
        served(before, run, input, after, output),
        run.stage == LoopStage::Close,
    ensures
        after.routes.connections.len() == 0,
        output matches LoopOutput::Removed(removed) && removed@.len()
            == before.routes.connections.len() && forall|i: int|
            0 <= i < removed@.len() ==> (#[trigger] removed@[i]).closed() && removed@[i].flow()
                == before.routes.connections[i].flow() && C::closes(
                before.routes.connections[i],
                removed@[i],
            ),
{
}

/// A clean-up keeps the connections that are not idle for too long at the time of
/// the clean-up, and closes all the others.
pub proof fn law_clean_up_closes_the_idle<C: Connection>(
    before: ClientState<C>,
    run: ClientLoop,
    input: LoopInput,
    after: ClientState<C>,
    output: LoopOutput<C>,
    k: int,
)
    requires
        served(before, run, input, after, output),
        run.stage == LoopStage::Clean,
        0 <= k < before.routes.connections.len(),
    ensures
        !before.routes.connections[k].expired(run.last_cleanup)
            ==> after.routes.connections.contains(before.routes.connections[k]),
        before.routes.connections[k].expired(run.last_cleanup)
            ==> !after.routes.connections.contains(before.routes.connections[k]),
        output matches LoopOutput::Removed(removed) && forall|i: int|
            0 <= i < removed@.len() ==> (#[trigger] removed@[i]).closed(),
{
    law_clean_up_removes_exactly_the_idle(before.routes.connections, run.last_cleanup, k);
}

/// A poll in the loop keeps the open connections whose poll did not fail, and lets
/// go of all the others, closed.
pub proof fn law_poll_lets_go_of_the_closed<C: Connection>(
    before: ClientState<C>,
    run: ClientLoop,
    outcomes: Vec<Result<(), IoError>>,
    after: ClientState<C>,
    output: LoopOutput<C>,
    k: int,
)
    requires
        served(before, run, LoopInput::Polled(outcomes), after, output),
        run.stage == LoopStage::Poll || run.stage == LoopStage::PollFed,
        distinct(before.routes.connections),
        outcomes@.len() == before.routes.connections.len(),
        0 <= k < before.routes.connections.len(),
    ensures
        ({
            let connection = before.routes.connections[k];
            let failed = outcomes@[k] is Err && outcomes@[k]->Err_0.kind != ErrorKind::WouldBlock;
            &&& !connection.closed() && !failed ==> after.routes.connections.contains(connection)
            &&& connection.closed() || failed ==> !serves(
                after.routes.connections,
                connection.flow(),
            )
        }),
        output matches LoopOutput::Removed(removed) && forall|i: int|
            0 <= i < removed@.len() ==> (#[trigger] removed@[i]).closed(),
{
    law_open_connections_stay(before.routes.connections, outcomes@, k);
}

/// The device gets all the bytes that wait for it, unless the buffer is in use, in
/// which case they go on waiting.
pub proof fn law_loop_hands_out_what_waits<C: Connection>(
    before: ClientState<C>,
    run: ClientLoop,
    input: LoopInput,
    after: ClientState<C>,
    output: LoopOutput<C>,
)
    requires
        served(before, run, input, after, output),
        run.stage == LoopStage::Drain,
    ensures
        output matches LoopOutput::Outgoing(bytes) && bytes@ + after.outgoing.bytes
            == before.outgoing.bytes && (!before.outgoing.busy ==> bytes@ == before.outgoing.bytes)
            && (before.outgoing.busy ==> bytes@.len() == 0),
        after.outgoing.capacity == before.outgoing.capacity,
        after.outgoing.busy == before.outgoing.busy,
{
    if let LoopOutput::Outgoing(bytes) = output {
        assert(bytes@ + after.outgoing.bytes =~= before.outgoing.bytes);
    }
}

/// The greeting spells the client's number in base 256, the most significant byte
/// first.
pub proof fn law_greeting_spells_the_number(id: u32)
    ensures
        big_endian(id).len() == 4,
        id == big_endian(id)[0] * 0x100_0000 + big_endian(id)[1] * 0x1_0000 + big_endian(id)[2]
            * 0x100 + big_endian(id)[3],
{
    assert(id == (((id >> 24) & 0xff) as u8) * 0x100_0000 + (((id >> 16) & 0xff) as u8) * 0x1_0000
        + (((id >> 8) & 0xff) as u8) * 0x100 + ((id & 0xff) as u8)) by (bit_vector);
}

/// A stream that moved bytes says how many; one that could do nothing right now is
/// told apart from one that failed.
pub proof fn law_stream_outcomes(n: usize, error: IoError)
    ensures
        outcome_of(Ok(n)) == StreamOutcome::Moved(n),
        error.kind == ErrorKind::WouldBlock ==> outcome_of(Err(error)) == StreamOutcome::WouldBlock,
        error.kind != ErrorKind::WouldBlock ==> outcome_of(Err(error)) == StreamOutcome::Failed,
{
}

/// Every outcome of a stage is an answer to it: the loop does not get stuck on
/// one, whatever state the client is in.
pub proof fn law_every_outcome_is_an_answer<C: Connection>(
    client: ClientState<C>,
    requested: bool,
    outcome: StreamOutcome,
    now: u64,
    polled: Vec<Result<(), IoError>>,
)
    requires
        polled@.len() == client.routes.connections.len(),
    ensures
        fits(LoopStage::Configure, LoopEvent::Done),
        fits(LoopStage::Configure, LoopEvent::Failed),
        fits(LoopStage::Greet, LoopEvent::Done),
        fits(LoopStage::Greet, LoopEvent::Failed),
        awaited(client, LoopStage::Check, LoopInput::CloseRequested(requested)),
        awaited(client, LoopStage::Read, LoopInput::Read(outcome)),
        awaited(client, LoopStage::Feed, LoopInput::Done),
        awaited(client, LoopStage::PollFed, LoopInput::Polled(polled)),
        awaited(client, LoopStage::Poll, LoopInput::Polled(polled)),
        awaited(client, LoopStage::Time, LoopInput::Time(now)),
        awaited(client, LoopStage::Clean, LoopInput::Done),
        awaited(client, LoopStage::Drain, LoopInput::Done),
        awaited(client, LoopStage::Write, LoopInput::Done),
        awaited(client, LoopStage::Write, LoopInput::Failed),
        awaited(client, LoopStage::Sleep, LoopInput::Done),
        awaited(client, LoopStage::Close, LoopInput::Done),
{
}

/// Every call carries the loop of a client on as its stages say, and numbers and
/// greets a client as it should.
pub proof fn law_calls_carry_the_loop_on<C: Connection>(
    run: &mut ClientLoop,
    event: LoopEvent,
    client: &mut Client<C>,
    input: LoopInput,
    output: LoopOutput<C>,
    now: u64,
    started: ClientLoop,
    ids: &mut ClientIds,
    serial: Option<String>,
    admitted: Result<(Client<C>, Vec<u8>), IoError>,
    id: u32,
    bytes: Vec<u8>,
    outcome: Result<usize, IoError>,
    sorted: StreamOutcome,
    first: ClientIds,
    stage: LoopStage,
    millis: Option<u64>,
)
    ensures
        call_ensures(ClientLoop::next, (run, event), ()) ==> *final(run) == goes_on(
            *old(run),
            event,
        ),
        call_ensures(Client::<C>::run_blocking, (client, run, input), output) ==> {
            &&& served(old(client)@, *old(run), input, final(client)@, output)
            &&& *final(run) == goes_on(
                *old(run),
                event_of(old(client)@, old(run).stage, input),
            )
        },
        call_ensures(ClientLoop::new, (now,), started) ==> started.stage == LoopStage::Configure
            && !started.made_progress && started.last_cleanup == now,
        call_ensures(welcome::<C>, (ids, serial), admitted) ==> {
            &&& admitted is Ok
            &&& admitted->Ok_0.0@ == new_client::<C>(old(ids)@, optional_text(serial))
            &&& admitted->Ok_0.1@ == big_endian(old(ids)@)
            &&& final(ids)@ == following(old(ids)@)
        },
        call_ensures(ClientIds::assign, (ids,), id) ==> id == old(ids)@ && final(ids)@
            == following(old(ids)@),
        call_ensures(ClientIds::new, (), first) ==> first@ == 1,
        call_ensures(greeting, (id,), bytes) ==> bytes@ == big_endian(id),
        call_ensures(sort_outcome, (&outcome,), sorted) ==> sorted == outcome_of(outcome),
        call_ensures(sleep_millis, (stage,), millis) ==> (millis is Some <==> stage
            == LoopStage::Sleep) && (millis is Some ==> millis->0 == 1),
{
}

} // verus!
