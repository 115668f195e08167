use dbus::MethodErr;
use identity_broker::bus::{status_parts, FAILED_STATUS};
use identity_broker::service::{
    Bus, NameReply, Service, ServiceAction, ServiceEvent, ServicePhase, ServiceStartup,
    StartupError,
};
use identity_broker::freedesktop::{
    authorize, declined_status, serve_bus_call, BusCallOutcome, Caller, Declined,
    BUS_DAEMON_INTERFACE, BUS_DAEMON_NAME, BUS_DAEMON_PATH, BUS_DAEMON_TIMEOUT_MILLIS,
    UNIX_USER_METHOD,
};
use identity_broker::broker_proto::Operation;
use identity_broker::himmelblau_broker::HimmelblauBroker;

struct Counter {
    calls: Vec<(String, u32)>,
}

impl Counter {
    fn note(&mut self, correlation_id: String, uid: u32) -> Result<String, u8> {
        self.calls.push((correlation_id.clone(), uid));
        if correlation_id == "fail" {
            Err(7)
        } else {
            Ok(format!("served {}", uid))
        }
    }
}

impl HimmelblauBroker for Counter {
    type Failure = u8;

    fn acquire_token_interactively(&mut self, _: String, c: String, _: String, uid: u32) -> Result<String, u8> {
        self.note(c, uid)
    }
    fn acquire_token_silently(&mut self, _: String, c: String, _: String, uid: u32) -> Result<String, u8> {
        self.note(c, uid)
    }
    fn get_accounts(&mut self, _: String, c: String, _: String, uid: u32) -> Result<String, u8> {
        self.note(c, uid)
    }
    fn remove_account(&mut self, _: String, c: String, _: String, uid: u32) -> Result<String, u8> {
        self.note(c, uid)
    }
    fn acquire_prt_sso_cookie(&mut self, _: String, c: String, _: String, uid: u32) -> Result<String, u8> {
        self.note(c, uid)
    }
    fn generate_signed_http_request(&mut self, _: String, c: String, _: String, uid: u32) -> Result<String, u8> {
        self.note(c, uid)
    }
    fn cancel_interactive_flow(&mut self, _: String, c: String, _: String, uid: u32) -> Result<String, u8> {
        self.note(c, uid)
    }
    fn get_linux_broker_version(&mut self, _: String, c: String, _: String, uid: u32) -> Result<String, u8> {
        self.note(c, uid)
    }
}

fn outcome_of(outcome: BusCallOutcome<u8>) -> Result<String, String> {
    match outcome {
        BusCallOutcome::Served(result) => Ok(result),
        BusCallOutcome::Failed(code) => Err(format!("failed {}", code)),
        BusCallOutcome::Declined(reason) => Err(format!("declined {:?}", reason)),
    }
}

#[test]
fn a_status_carries_its_name_and_its_message() {
    assert_eq!(FAILED_STATUS, "org.freedesktop.DBus.Error.Failed");
    let status = MethodErr::failed(&"no luck");
    assert_eq!(
        status_parts(&status),
        ("org.freedesktop.DBus.Error.Failed".to_string(), "no luck".to_string())
    );
    let other = MethodErr::no_arg();
    assert_eq!(
        status_parts(&other),
        ("org.freedesktop.DBus.Error.InvalidArgs".to_string(), "Not enough arguments".to_string())
    );
    assert_eq!(status_parts(&MethodErr::failed(&"")).1, "");
    assert_eq!(declined_status(Declined::NoSender), MethodErr::failed(&"the call names no sender"));
}

#[test]
fn a_service_serves_once_the_name_is_its_own() {
    for reply in [NameReply::PrimaryOwner, NameReply::AlreadyOwner] {
        let mut service = ServiceStartup::new(Service::DeviceBroker);
        assert_eq!(service.phase(), ServicePhase::Idle);
        assert_eq!(service.step(ServiceEvent::Begin), ServiceAction::Connect { bus: Bus::System });
        assert_eq!(service.step(ServiceEvent::Connected), ServiceAction::ClaimName { allow_replacement: false, replace_existing: true, do_not_queue: false });
        assert_eq!(service.phase(), ServicePhase::Claiming);
        assert_eq!(service.step(ServiceEvent::Claimed { reply }), ServiceAction::Serve);
        assert_eq!(service.phase(), ServicePhase::Serving);
        assert_eq!(service.step(ServiceEvent::ServeEnded), ServiceAction::Finish);
        assert_eq!(service.phase(), ServicePhase::Ended);
    }
}

#[test]
fn claiming_a_name_that_is_owned_fails_before_anything_is_served() {
    for reply in [NameReply::InQueue, NameReply::Exists] {
        let mut service = ServiceStartup::new(Service::SessionBroker);
        assert_eq!(service.step(ServiceEvent::Begin), ServiceAction::Connect { bus: Bus::Session });
        assert_eq!(service.step(ServiceEvent::Connected), ServiceAction::ClaimName { allow_replacement: false, replace_existing: true, do_not_queue: false });
        let action = service.step(ServiceEvent::Claimed { reply });
        assert_eq!(action, ServiceAction::Abort { error: StartupError::NameTaken });
        assert_eq!(service.phase(), ServicePhase::Ended);
        assert_eq!(
            StartupError::NameTaken.message(),
            "the service name is already owned by another connection"
        );
        assert_eq!(service.step(ServiceEvent::Claimed { reply: NameReply::PrimaryOwner }), ServiceAction::Finish);
        assert_eq!(service.step(ServiceEvent::Connected), ServiceAction::Finish);
    }
}

#[test]
fn every_service_has_its_bus_and_its_name() {
    assert_eq!(Service::SessionBroker.bus(), Bus::Session);
    assert_eq!(Service::SessionBroker.bus_name(), "com.microsoft.identity.broker1");
    assert_eq!(Service::DeviceBroker.bus(), Bus::System);
    assert_eq!(Service::DeviceBroker.bus_name(), "com.microsoft.identity.DeviceBroker1");
    assert_eq!(ServiceStartup::new(Service::DeviceBroker).service(), Service::DeviceBroker);
}

#[test]
fn a_service_that_cannot_reach_the_bus_gives_up() {
    let mut service = ServiceStartup::new(Service::DeviceBroker);
    service.step(ServiceEvent::Begin);
    assert_eq!(
        service.step(ServiceEvent::ConnectFailed),
        ServiceAction::Abort { error: StartupError::ConnectFailed }
    );
    assert_eq!(service.phase(), ServicePhase::Ended);

    let mut service = ServiceStartup::new(Service::DeviceBroker);
    service.step(ServiceEvent::Begin);
    service.step(ServiceEvent::Connected);
    assert_eq!(service.step(ServiceEvent::ClaimFailed), ServiceAction::Abort { error: StartupError::ClaimFailed });

    let mut service = ServiceStartup::new(Service::DeviceBroker);
    assert_eq!(service.step(ServiceEvent::Connected), ServiceAction::Abort { error: StartupError::OutOfTurn });
    assert_eq!(service.phase(), ServicePhase::Ended);
}

#[test]
fn every_startup_error_has_its_own_words() {
    let errors = [
        StartupError::ConnectFailed,
        StartupError::ClaimFailed,
        StartupError::NameTaken,
        StartupError::OutOfTurn,
    ];
    for a in errors {
        assert!(!a.message().is_empty());
        for b in errors {
            assert_eq!(a.message() == b.message(), a == b);
        }
    }
}

#[test]
fn the_bus_daemon_is_asked_at_its_well_known_place() {
    assert_eq!(BUS_DAEMON_NAME, "org.freedesktop.DBus");
    assert_eq!(BUS_DAEMON_PATH, "/org/freedesktop/DBus");
    assert_eq!(BUS_DAEMON_INTERFACE, "org.freedesktop.DBus");
    assert_eq!(UNIX_USER_METHOD, "GetConnectionUnixUser");
    assert_eq!(BUS_DAEMON_TIMEOUT_MILLIS, 5000);
}

#[test]
fn only_a_known_caller_is_authorized() {
    assert_eq!(authorize(Caller::Known { uid: 1000 }), Ok(1000));
    assert_eq!(authorize(Caller::Known { uid: 0 }), Ok(0));
    assert_eq!(authorize(Caller::NoSender), Err(Declined::NoSender));
    assert_eq!(authorize(Caller::LookupFailed), Err(Declined::UnknownCaller));
}

#[test]
fn a_bus_call_of_a_known_caller_reaches_the_broker_with_the_uid() {
    let mut broker = Counter { calls: Vec::new() };
    let outcome = serve_bus_call(
        &mut broker,
        Caller::Known { uid: 1000 },
        Operation::GetAccounts,
        "0.1".into(),
        "corr".into(),
        "{}".into(),
    );
    assert_eq!(outcome_of(outcome), Ok("served 1000".to_string()));
    let outcome = serve_bus_call(
        &mut broker,
        Caller::Known { uid: 1001 },
        Operation::RemoveAccount,
        "0.1".into(),
        "fail".into(),
        "{}".into(),
    );
    assert_eq!(outcome_of(outcome), Err("failed 7".to_string()));
    assert_eq!(broker.calls, vec![("corr".to_string(), 1000), ("fail".to_string(), 1001)]);
}

#[test]
fn a_bus_call_of_an_unknown_caller_never_reaches_the_broker() {
    let mut broker = Counter { calls: Vec::new() };
    for (caller, reason) in [(Caller::NoSender, "NoSender"), (Caller::LookupFailed, "UnknownCaller")] {
        let outcome = serve_bus_call(
            &mut broker,
            caller,
            Operation::AcquireTokenSilently,
            "0.1".into(),
            "corr".into(),
            "{}".into(),
        );
        assert_eq!(outcome_of(outcome), Err(format!("declined {}", reason)));
    }
    assert!(broker.calls.is_empty());
}

#[test]
fn a_declined_call_is_answered_with_a_failed_status() {
    assert_eq!(
        status_parts(&declined_status(Declined::NoSender)),
        ("org.freedesktop.DBus.Error.Failed".to_string(), "the call names no sender".to_string())
    );
    assert_eq!(
        status_parts(&declined_status(Declined::UnknownCaller)),
        (
            "org.freedesktop.DBus.Error.Failed".to_string(),
            "the user of the caller could not be determined".to_string()
        )
    );
    assert_eq!(Declined::NoSender.message(), "the call names no sender");
}
