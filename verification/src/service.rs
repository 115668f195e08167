//! How a bus service starts: it connects to its bus, asks for its name,
//! and serves calls once the name is its own.

use crate::bus::is_bus_name;
use crate::device_broker::DEVICE_BROKER_BUS_NAME;
use crate::session_broker::SESSION_BROKER_BUS_NAME;
use vstd::prelude::*;

verus! {

/// Which bus a service lives on.
#[derive(Clone, Copy, PartialEq, Eq, Structural, Debug)]
pub enum Bus {
    /// The bus of one user's session.
    Session,
    /// The bus of the whole system, where the privileged services are.
    System,
}

/// The services that can be started.
#[derive(Clone, Copy, PartialEq, Eq, Structural, Debug)]
pub enum Service {
    /// The session broker, which every user's session has for itself.
    SessionBroker,
    /// The device broker, which only the privileged bus offers.
    DeviceBroker,
}

impl Service {
    /// The bus on which the service lives.
    pub open spec fn spec_bus(self) -> Bus {
        match self {
            Service::SessionBroker => Bus::Session,
            Service::DeviceBroker => Bus::System,
        }
    }

    /// The name that the service claims on its bus.
    pub open spec fn spec_bus_name(self) -> Seq<char> {
        match self {
            Service::SessionBroker => SESSION_BROKER_BUS_NAME@,
            Service::DeviceBroker => DEVICE_BROKER_BUS_NAME@,
        }
    }

    /// The bus on which the service lives.
    pub fn bus(self) -> (bus: Bus)
        ensures
            bus == self.spec_bus(),
    {
        match self {
            Service::SessionBroker => Bus::Session,
            Service::DeviceBroker => Bus::System,
        }
    }

    /// The name that the service claims on its bus.
    pub fn bus_name(self) -> (name: &'static str)
        ensures
            name@ == self.spec_bus_name(),
            is_bus_name(name@),
    {
        proof {
            self.law_bus_name_well_formed();
        }
        match self {
            Service::SessionBroker => SESSION_BROKER_BUS_NAME,
            Service::DeviceBroker => DEVICE_BROKER_BUS_NAME,
        }
    }

    /// The name of every service is one that the bus accepts: asking for
    /// it does not make the bus library panic.
    pub proof fn law_bus_name_well_formed(self)
        ensures
            is_bus_name(self.spec_bus_name()),
    {
        match self {
            Service::SessionBroker => {
                reveal_strlit("com.microsoft.identity.broker1");
                assert(SESSION_BROKER_BUS_NAME@[3] == '.');
            },
            Service::DeviceBroker => {
                reveal_strlit("com.microsoft.identity.DeviceBroker1");
                assert(DEVICE_BROKER_BUS_NAME@[3] == '.');
            },
        }
    }
}

/// What the bus says to a request for a name.
#[derive(Clone, Copy, PartialEq, Eq, Structural, Debug)]
pub enum NameReply {
    /// The name is now this connection's.
    PrimaryOwner,
    /// Another connection has the name; this one waits in line for it.
    InQueue,
    /// Another connection has the name, and this one does not wait.
    Exists,
    /// The name was this connection's already.
    AlreadyOwner,
}

/// Why a service could not start.
#[derive(Clone, Copy, PartialEq, Eq, Structural, Debug)]
pub enum StartupError {
    /// The bus could not be connected to.
    ConnectFailed,
    /// The request for the name could not be made.
    ClaimFailed,
    /// The name belongs to another connection.
    NameTaken,
    /// Something was reported that cannot happen in the service's phase.
    OutOfTurn,
}

impl StartupError {
    /// The words in which the error is reported.
    pub open spec fn spec_message(self) -> Seq<char> {
        match self {
            StartupError::ConnectFailed => "could not connect to the message bus"@,
            StartupError::ClaimFailed => "could not ask the message bus for the service name"@,
            StartupError::NameTaken => "the service name is already owned by another connection"@,
            StartupError::OutOfTurn => "the service was driven out of turn"@,
        }
    }

    /// The words in which the error is reported.
    pub fn message(self) -> (message: &'static str)
        ensures
            message@ == self.spec_message(),
    {
        match self {
            StartupError::ConnectFailed => "could not connect to the message bus",
            StartupError::ClaimFailed => "could not ask the message bus for the service name",
            StartupError::NameTaken => "the service name is already owned by another connection",
            StartupError::OutOfTurn => "the service was driven out of turn",
        }
    }
}

/// Where a bus service stands.
#[derive(Clone, Copy, PartialEq, Eq, Structural, Debug)]
pub enum ServicePhase {
    /// Nothing was done yet.
    Idle,
    /// The bus is being connected to.
    Connecting,
    /// The name is being asked for.
    Claiming,
    /// Calls are being served.
    Serving,
    /// The service ended.
    Ended,
}

/// What happened to a bus service, as its driver reports it.
#[derive(Clone, Copy, PartialEq, Eq, Structural, Debug)]
pub enum ServiceEvent {
    /// The service is asked to start.
    Begin,
    /// The bus was connected to.
    Connected,
    /// The bus could not be connected to.
    ConnectFailed,
    /// The bus answered the request for the name.
    Claimed { reply: NameReply },
    /// The request for the name could not be made.
    ClaimFailed,
    /// Serving calls ended.
    ServeEnded,
}

/// What the driver of a bus service is to do next.
#[derive(Clone, Copy, PartialEq, Eq, Structural, Debug)]
pub enum ServiceAction {
    /// Connect to the bus.
    Connect { bus: Bus },
    /// Ask the bus for the name of the service. The flags say whether another
    /// connection may take the name from this one later, whether this one
    /// takes it from an owner that allows that, and whether it does without
    /// a place in the line for the name.
    ClaimName { allow_replacement: bool, replace_existing: bool, do_not_queue: bool },
    /// Put the service's table on the connection and serve calls, for as
    /// long as the process lives.
    Serve,
    /// Give up, releasing the connection.
    Abort { error: StartupError },
    /// Nothing more: the service has ended.
    Finish,
}

/// The rules of a bus service: the phase after `event` and what is to be
/// done then.
///
/// The name is asked for once: not to be given up to others, to be taken
/// from an owner that allows it, and with a place in the line otherwise.
/// Calls are served only by the owner of the name. Where the bus answers
/// that the name belongs to another connection the service gives up at
/// once, before it serves a single call; releasing the connection gives
/// up the place in the line.
pub open spec fn spec_service(bus: Bus, phase: ServicePhase, event: ServiceEvent) -> (
    ServicePhase,
    ServiceAction,
) {
    match (phase, event) {
        (ServicePhase::Idle, ServiceEvent::Begin) => (
            ServicePhase::Connecting,
            ServiceAction::Connect { bus },
        ),
        (ServicePhase::Connecting, ServiceEvent::Connected) => (
            ServicePhase::Claiming,
            ServiceAction::ClaimName {
                allow_replacement: false,
                replace_existing: true,
                do_not_queue: false,
            },
        ),
        (ServicePhase::Connecting, ServiceEvent::ConnectFailed) => (
            ServicePhase::Ended,
            ServiceAction::Abort { error: StartupError::ConnectFailed },
        ),
        (ServicePhase::Claiming, ServiceEvent::Claimed { reply }) => {
            if reply == NameReply::PrimaryOwner || reply == NameReply::AlreadyOwner {
                (ServicePhase::Serving, ServiceAction::Serve)
            } else {
                (ServicePhase::Ended, ServiceAction::Abort { error: StartupError::NameTaken })
            }
        },
        (ServicePhase::Claiming, ServiceEvent::ClaimFailed) => (
            ServicePhase::Ended,
            ServiceAction::Abort { error: StartupError::ClaimFailed },
        ),
        (ServicePhase::Serving, ServiceEvent::ServeEnded) => (
            ServicePhase::Ended,
            ServiceAction::Finish,
        ),
        (ServicePhase::Ended, _) => (ServicePhase::Ended, ServiceAction::Finish),
        _ => (ServicePhase::Ended, ServiceAction::Abort { error: StartupError::OutOfTurn }),
    }
}

/// The start of one bus service.
pub struct ServiceStartup {
    service: Service,
    phase: ServicePhase,
}

/// The state of a [`ServiceStartup`].
pub struct ServiceModel {
    pub service: Service,
    pub phase: ServicePhase,
}

impl View for ServiceStartup {
    type V = ServiceModel;

    closed spec fn view(&self) -> ServiceModel {
        ServiceModel { service: self.service, phase: self.phase }
    }
}

impl ServiceStartup {
    /// The start of `service`, with nothing done yet.
    pub fn new(service: Service) -> (startup: ServiceStartup)
        ensures
            startup@ == (ServiceModel { service, phase: ServicePhase::Idle }),
    {
        ServiceStartup { service, phase: ServicePhase::Idle }
    }

    /// The service that is started.
    pub fn service(&self) -> (service: Service)
        ensures
            service == self@.service,
    {
        self.service
    }

    /// Where the service stands.
    pub fn phase(&self) -> (phase: ServicePhase)
        ensures
            phase == self@.phase,
    {
        self.phase
    }

    /// Takes in what happened and says what is to be done next.
    pub fn step(&mut self, event: ServiceEvent) -> (action: ServiceAction)
        ensures
            final(self)@.service == old(self)@.service,
            (final(self)@.phase, action) == spec_service(
                old(self)@.service.spec_bus(),
                old(self)@.phase,
                event,
            ),
    {
        let (phase, action) = match (self.phase, event) {
            (ServicePhase::Idle, ServiceEvent::Begin) => (
                ServicePhase::Connecting,
                ServiceAction::Connect { bus: self.service.bus() },
            ),
            (ServicePhase::Connecting, ServiceEvent::Connected) => (
                ServicePhase::Claiming,
                ServiceAction::ClaimName {
                    allow_replacement: false,
                    replace_existing: true,
                    do_not_queue: false,
                },
            ),
            (ServicePhase::Connecting, ServiceEvent::ConnectFailed) => (
                ServicePhase::Ended,
                ServiceAction::Abort { error: StartupError::ConnectFailed },
            ),
            (ServicePhase::Claiming, ServiceEvent::Claimed { reply }) => {
                match reply {
                    NameReply::PrimaryOwner | NameReply::AlreadyOwner => (
                        ServicePhase::Serving,
                        ServiceAction::Serve,
                    ),
                    NameReply::InQueue | NameReply::Exists => (
                        ServicePhase::Ended,
                        ServiceAction::Abort { error: StartupError::NameTaken },
                    ),
                }
            },
            (ServicePhase::Claiming, ServiceEvent::ClaimFailed) => (
                ServicePhase::Ended,
                ServiceAction::Abort { error: StartupError::ClaimFailed },
            ),
            (ServicePhase::Serving, ServiceEvent::ServeEnded) => (
                ServicePhase::Ended,
                ServiceAction::Finish,
            ),
            (ServicePhase::Ended, _) => (ServicePhase::Ended, ServiceAction::Finish),
            _ => (ServicePhase::Ended, ServiceAction::Abort { error: StartupError::OutOfTurn }),
        };
        self.phase = phase;
        action
    }
}

/// What a service does that starts in `phase` and sees `events`, one
/// action for each event.
pub open spec fn spec_service_run(bus: Bus, phase: ServicePhase, events: Seq<ServiceEvent>) -> Seq<
    ServiceAction,
>
    decreases events.len(),
{
    if events.len() == 0 {
        seq![]
    } else {
        let (next, action) = spec_service(bus, phase, events[0]);
        seq![action] + spec_service_run(bus, next, events.drop_first())
    }
}

/// One action is taken for each event.
pub proof fn lemma_service_run_len(bus: Bus, phase: ServicePhase, events: Seq<ServiceEvent>)
    ensures
        spec_service_run(bus, phase, events).len() == events.len(),
    decreases events.len(),
{
    if events.len() > 0 {
        lemma_service_run_len(bus, spec_service(bus, phase, events[0]).0, events.drop_first());
    }
}

/// A service serves calls only as the owner of its name. Whatever is
/// reported to a service from its start: where it is told to serve, it was
/// asked to begin, the bus was connected to, and the bus has just said that
/// the name is the service's own. It is told so at most once.
pub proof fn law_serves_only_as_owner(bus: Bus, events: Seq<ServiceEvent>, i: int)
    requires
        0 <= i < events.len(),
        spec_service_run(bus, ServicePhase::Idle, events)[i] == ServiceAction::Serve,
    ensures
        i == 2,
        events[0] == ServiceEvent::Begin,
        events[1] == ServiceEvent::Connected,
        events[2] == (ServiceEvent::Claimed { reply: NameReply::PrimaryOwner }) || events[2] == (
        ServiceEvent::Claimed { reply: NameReply::AlreadyOwner }),
{
    let run = spec_service_run(bus, ServicePhase::Idle, events);
    let first = spec_service(bus, ServicePhase::Idle, events[0]).0;
    let after_first = events.drop_first();
    let run_first = spec_service_run(bus, first, after_first);
    lemma_service_run_len(bus, first, after_first);
    if i > 0 {
        let second = spec_service(bus, first, after_first[0]).0;
        let after_second = after_first.drop_first();
        let run_second = spec_service_run(bus, second, after_second);
        lemma_service_run_len(bus, second, after_second);
        assert(run[i] == run_first[i - 1]);
        if first == ServicePhase::Ended {
            lemma_no_serve_later(bus, first, after_first, i - 1);
        }
        if i > 1 {
            let third = spec_service(bus, second, after_second[0]).0;
            let after_third = after_second.drop_first();
            let run_third = spec_service_run(bus, third, after_third);
            lemma_service_run_len(bus, third, after_third);
            assert(run_first[i - 1] == run_second[i - 2]);
            assert(after_second[0] == events[2]);
            if second == ServicePhase::Ended {
                lemma_no_serve_later(bus, second, after_second, i - 2);
            }
            if i > 2 {
                assert(run_second[i - 2] == run_third[i - 3]);
                lemma_no_serve_later(bus, third, after_third, i - 3);
            }
        }
    }
}

/// A service that serves or has ended is never again told to serve.
proof fn lemma_no_serve_later(bus: Bus, phase: ServicePhase, events: Seq<ServiceEvent>, j: int)
    requires
        0 <= j < events.len(),
        phase == ServicePhase::Serving || phase == ServicePhase::Ended,
    ensures
        spec_service_run(bus, phase, events)[j] != ServiceAction::Serve,
    decreases events.len(),
{
    let (next, action) = spec_service(bus, phase, events[0]);
    lemma_service_run_len(bus, next, events.drop_first());
    if j > 0 {
        lemma_no_serve_later(bus, next, events.drop_first(), j - 1);
    }
}

} // verus!
