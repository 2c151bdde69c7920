//! The relay server: accepts the connections that devices open, and has each
//! served.

use vstd::prelude::*;

use crate::io_error::IoError;
use crate::relay::serial_registry::{take_pending, PendingQueue};
use crate::text::push_decimal;
#[allow(unused_imports)]
use crate::relay::serial_registry::{fresh, law_taken_is_oldest_fresh, taken, Pending};
#[allow(unused_imports)]
use crate::text::decimal;

verus! {

/// A relay server for one port.
pub struct Relay {
    port: u16,
}

/// What the relay server does next.
pub enum RelayStage {
    /// Start the runtime.
    Starting,
    /// Bind to the port.
    Binding,
    /// Wait for a device to connect.
    Accepting,
    /// Prepare the stream of the device with this serial, if it is known.
    Preparing(Option<String>),
    /// Hand the stream to a thread of its own, and go on.
    Serving(Option<String>),
    /// The server ended with an error.
    Failed(IoError),
}

/// What came of what the relay server did.
pub enum RelayEvent {
    /// The step was tried.
    Tried(Result<(), IoError>),
    /// A device connected at the given time, or the attempt to accept one
    /// failed.
    Accepted(Result<u64, IoError>),
}

/// Whether the event is an answer to the stage.
pub open spec fn answers(stage: RelayStage, event: RelayEvent) -> bool {
    match stage {
        RelayStage::Accepting => event is Accepted,
        RelayStage::Failed(_) => false,
        _ => event is Tried,
    }
}

/// Where the server goes from a stage, with these serials pending before and
/// after.
pub open spec fn goes_to(
    stage: RelayStage,
    event: RelayEvent,
    pending: Seq<Pending>,
    next: RelayStage,
    pending_after: Seq<Pending>,
) -> bool {
    match event {
        RelayEvent::Tried(Err(e)) => next == RelayStage::Failed(e) && pending_after == pending,
        RelayEvent::Accepted(Err(e)) => next == RelayStage::Failed(e) && pending_after == pending,
        RelayEvent::Accepted(Ok(now)) => {
            &&& pending_after == taken(pending, now).1
            &&& next matches RelayStage::Preparing(serial)
            &&& match serial {
                Some(s) => taken(pending, now).0 == Some(s@),
                None => taken(pending, now).0 is None,
            }
        },
        RelayEvent::Tried(Ok(_)) => {
            &&& pending_after == pending
            &&& match stage {
                RelayStage::Starting => next is Binding,
                RelayStage::Binding => next is Accepting,
                RelayStage::Preparing(serial) => next == RelayStage::Serving(serial),
                _ => next is Accepting,
            }
        },
    }
}

/// The address that the server for a port listens on.
pub open spec fn listen_address(port: u16) -> Seq<char> {
    "0.0.0.0:"@ + decimal(port as nat)
}

impl Relay {
    /// The port that the server listens on.
    pub closed spec fn view(&self) -> u16 {
        self.port
    }

    /// A server for the port.
    pub fn new(port: u16) -> (relay: Relay)
        ensures
            relay@ == port,
    {
        Relay { port }
    }

    /// The address to listen on: the port, on every IPv4 address of the
    /// machine.
    pub fn address(&self) -> (address: String)
        ensures
            address@ == listen_address(self@),
    {
        let mut address = String::new();
        address.append("0.0.0.0:");
        push_decimal(&mut address, self.port as u64);
        assert(address@ =~= listen_address(self@));
        address
    }

    /// Starts the server.
    pub fn run(&self) -> (stage: RelayStage)
        ensures
            stage is Starting,
    {
        RelayStage::Starting
    }

    /// Continues the server with what came of the last stage. The first error
    /// ends it. A device that connects is given the oldest pending serial.
    pub fn run_async(
        &self,
        stage: RelayStage,
        event: RelayEvent,
        pending: &mut PendingQueue,
    ) -> (next: RelayStage)
        requires
            old(pending).wf(),
            answers(stage, event),
        ensures
            final(pending).wf(),
            goes_to(stage, event, old(pending)@, next, final(pending)@),
    {
        match event {
            RelayEvent::Tried(outcome) => match outcome {
                Err(e) => RelayStage::Failed(e),
                Ok(_) => match stage {
                    RelayStage::Starting => RelayStage::Binding,
                    RelayStage::Binding => RelayStage::Accepting,
                    RelayStage::Preparing(serial) => RelayStage::Serving(serial),
                    _ => RelayStage::Accepting,
                },
            },
            RelayEvent::Accepted(outcome) => match outcome {
                Err(e) => RelayStage::Failed(e),
                Ok(now) => RelayStage::Preparing(take_pending(pending, now)),
            },
        }
    }
}

/// The server goes on accepting devices until something fails: a device that
/// was accepted is prepared and served with the serial it was given, and after
/// that the next one is waited for.
pub proof fn law_server_keeps_accepting(
    serial: Option<String>,
    pending: Seq<Pending>,
    prepared: RelayStage,
    pending_prepared: Seq<Pending>,
    served: RelayStage,
    pending_served: Seq<Pending>,
)
    requires
        goes_to(
            RelayStage::Preparing(serial),
            RelayEvent::Tried(Ok(())),
            pending,
            prepared,
            pending_prepared,
        ),
        goes_to(prepared, RelayEvent::Tried(Ok(())), pending_prepared, served, pending_served),
    ensures
        prepared == RelayStage::Serving(serial),
        served is Accepting,
        pending_served == pending,
{
}

/// A server that was started binds, and one that is bound accepts; a device that
/// connects is prepared; and the first error of any stage ends the server with
/// that error, with no serial taken.
pub proof fn law_server_stages(
    stage: RelayStage,
    pending: Seq<Pending>,
    next: RelayStage,
    pending_after: Seq<Pending>,
    error: IoError,
    now: u64,
)
    ensures
        goes_to(stage, RelayEvent::Tried(Err(error)), pending, next, pending_after) ==> next
            == RelayStage::Failed(error) && pending_after == pending,
        goes_to(stage, RelayEvent::Accepted(Err(error)), pending, next, pending_after) ==> next
            == RelayStage::Failed(error) && pending_after == pending,
        stage is Starting && goes_to(
            stage,
            RelayEvent::Tried(Ok(())),
            pending,
            next,
            pending_after,
        ) ==> next is Binding && pending_after == pending,
        stage is Binding && goes_to(
            stage,
            RelayEvent::Tried(Ok(())),
            pending,
            next,
            pending_after,
        ) ==> next is Accepting && pending_after == pending,
        goes_to(stage, RelayEvent::Accepted(Ok(now)), pending, next, pending_after) ==> next
            is Preparing,
{
}

/// A device that connects is given the oldest serial that was registered less than
/// thirty seconds ago, which then no other device gets; where there is none, it is
/// served without a serial.
pub proof fn law_device_gets_the_oldest_serial(
    stage: RelayStage,
    now: u64,
    pending: Seq<Pending>,
    serial: Option<String>,
    pending_after: Seq<Pending>,
)
    requires
        goes_to(
            stage,
            RelayEvent::Accepted(Ok(now)),
            pending,
            RelayStage::Preparing(serial),
            pending_after,
        ),
    ensures
        match serial {
            Some(s) => exists|i: int|
                {
                    &&& 0 <= i < pending.len()
                    &&& #[trigger] pending[i].serial == s@
                    &&& pending[i].registered_at > now || now - pending[i].registered_at
                        < 30_000_000_000
                    &&& pending_after == pending.skip(i + 1)
                    &&& forall|j: int|
                        0 <= j < i ==> now - (#[trigger] pending[j]).registered_at
                            >= 30_000_000_000
                },
            None => forall|j: int|
                0 <= j < pending.len() ==> now - (#[trigger] pending[j]).registered_at
                    >= 30_000_000_000,
        },
{
    law_taken_is_oldest_fresh(pending, now);
    match serial {
        Some(s) => {
            let i = choose|i: int|
                {
                    &&& 0 <= i < pending.len()
                    &&& #[trigger] pending[i].serial == s@
                    &&& fresh(pending[i], now)
                    &&& taken(pending, now).1 == pending.skip(i + 1)
                    &&& forall|j: int| 0 <= j < i ==> !fresh(#[trigger] pending[j], now)
                };
            assert(pending[i].serial == s@);
            assert forall|j: int| 0 <= j < i implies now - (#[trigger] pending[j]).registered_at
                >= 30_000_000_000 by {
                assert(!fresh(pending[j], now));
            }
        },
        None => {
            assert forall|j: int| 0 <= j < pending.len() implies now - (
            #[trigger] pending[j]).registered_at >= 30_000_000_000 by {
                assert(!fresh(pending[j], now));
            }
        },
    }
}

/// A server listens on its own port, on every IPv4 address.
pub proof fn law_server_listens_on_its_port(port: u16)
    ensures
        listen_address(port) == seq!['0', '.', '0', '.', '0', '.', '0', ':'] + decimal(
            port as nat,
        ),
{
    reveal_strlit("0.0.0.0:");
    assert("0.0.0.0:"@ =~= seq!['0', '.', '0', '.', '0', '.', '0', ':']);
}

/// Every outcome of a stage is an answer to it: the server does not get stuck on
/// one.
pub proof fn law_every_outcome_is_an_answer(
    serial: Option<String>,
    tried: Result<(), IoError>,
    accepted: Result<u64, IoError>,
)
    ensures
        answers(RelayStage::Starting, RelayEvent::Tried(tried)),
        answers(RelayStage::Binding, RelayEvent::Tried(tried)),
        answers(RelayStage::Accepting, RelayEvent::Accepted(accepted)),
        answers(RelayStage::Preparing(serial), RelayEvent::Tried(tried)),
        answers(RelayStage::Serving(serial), RelayEvent::Tried(tried)),
{
}

/// Every call carries the server on as its stages say.
pub proof fn law_calls_carry_the_server_on(
    relay: Relay,
    stage: RelayStage,
    event: RelayEvent,
    pending: &mut PendingQueue,
    next: RelayStage,
    port: u16,
    address: String,
)
    ensures
        call_ensures(Relay::run_async, (&relay, stage, event, pending), next) ==> goes_to(
            stage,
            event,
            old(pending)@,
            next,
            final(pending)@,
        ),
        call_ensures(Relay::new, (port,), relay) ==> relay@ == port,
        call_ensures(Relay::address, (&relay,), address) ==> address@ == listen_address(relay@),
        call_ensures(Relay::run, (&relay,), next) ==> next is Starting,
{
}

} // verus!
