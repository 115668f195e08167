use dbus::{Message, MethodErr};
use dbus_crossroads::Crossroads;
use identity_broker::broker_proto::{ClientRequest, Operation};
use identity_broker::bus::status_parts;
use identity_broker::codec::decode_request;
use identity_broker::session_broker::{
    dispatch_session, register_session_broker, relay_answer, relay_status, session_broker_table,
    RelayAction, RelayCall, RelayError, RelayEvent, RelayPhase, SessionBroker, CHUNK_SIZE,
    CORRELATION_ID_ARGUMENT, PROTOCOL_VERSION_ARGUMENT, REQUEST_ARGUMENT, RESULT_ARGUMENT,
    SESSION_BROKER_BUS_NAME, SESSION_BROKER_INTERFACE, SESSION_BROKER_PATH,
};
use std::cell::RefCell;

struct Echo;

impl Echo {
    fn answer(&mut self, method: &str, v: String, c: String, r: String) -> Result<String, MethodErr> {
        if c == "declined" {
            Err(MethodErr::failed(&format!("{} declined", method)))
        } else {
            Ok(format!("{}({},{},{})", method, v, c, r))
        }
    }
}

impl SessionBroker for Echo {
    fn acquire_token_interactively(&mut self, v: String, c: String, r: String) -> Result<String, MethodErr> {
        self.answer("acquire_token_interactively", v, c, r)
    }
    fn acquire_token_silently(&mut self, v: String, c: String, r: String) -> Result<String, MethodErr> {
        self.answer("acquire_token_silently", v, c, r)
    }
    fn get_accounts(&mut self, v: String, c: String, r: String) -> Result<String, MethodErr> {
        self.answer("get_accounts", v, c, r)
    }
    fn remove_account(&mut self, v: String, c: String, r: String) -> Result<String, MethodErr> {
        self.answer("remove_account", v, c, r)
    }
    fn acquire_prt_sso_cookie(&mut self, v: String, c: String, r: String) -> Result<String, MethodErr> {
        self.answer("acquire_prt_sso_cookie", v, c, r)
    }
    fn generate_signed_http_request(&mut self, v: String, c: String, r: String) -> Result<String, MethodErr> {
        self.answer("generate_signed_http_request", v, c, r)
    }
    fn cancel_interactive_flow(&mut self, v: String, c: String, r: String) -> Result<String, MethodErr> {
        self.answer("cancel_interactive_flow", v, c, r)
    }
    fn get_linux_broker_version(&mut self, v: String, c: String, r: String) -> Result<String, MethodErr> {
        self.answer("get_linux_broker_version", v, c, r)
    }
}

const METHODS: [(Operation, &str, &str); 8] = [
    (Operation::AcquireTokenInteractively, "acquireTokenInteractively", "acquire_token_interactively"),
    (Operation::AcquireTokenSilently, "acquireTokenSilently", "acquire_token_silently"),
    (Operation::GetAccounts, "getAccounts", "get_accounts"),
    (Operation::RemoveAccount, "removeAccount", "remove_account"),
    (Operation::AcquirePrtSsoCookie, "acquirePrtSsoCookie", "acquire_prt_sso_cookie"),
    (Operation::GenerateSignedHttpRequest, "generateSignedHttpRequest", "generate_signed_http_request"),
    (Operation::CancelInteractiveFlow, "cancelInteractiveFlow", "cancel_interactive_flow"),
    (Operation::GetLinuxBrokerVersion, "getLinuxBrokerVersion", "get_linux_broker_version"),
];

fn call_on_bus(table: &mut Crossroads, method: &str, args: &[&str]) -> Message {
    let mut message =
        Message::new_method_call("com.example.caller", SESSION_BROKER_PATH, SESSION_BROKER_INTERFACE, method)
            .unwrap();
    for arg in args {
        message = message.append1(*arg);
    }
    message.set_serial(7);
    let replies: RefCell<Vec<Message>> = RefCell::new(Vec::new());
    table.handle_message(message, &replies).unwrap();
    let mut replies = replies.into_inner();
    assert_eq!(replies.len(), 1);
    replies.pop().unwrap()
}

fn begun(timeout_secs: u64) -> RelayCall {
    let request = ClientRequest::getAccounts("0.1".into(), "corr".into(), "{}".into());
    RelayCall::begin(&request, timeout_secs).0
}

fn reading(timeout_secs: u64) -> RelayCall {
    let mut call = begun(timeout_secs);
    assert_eq!(call.step(RelayEvent::Sent), RelayAction::CheckClock);
    assert_eq!(call.step(RelayEvent::Clock { elapsed_nanos: 0 }), RelayAction::Read);
    assert_eq!(call.phase(), RelayPhase::Reading);
    call
}

#[test]
fn session_names_are_the_well_known_ones() {
    assert_eq!(SESSION_BROKER_INTERFACE, "com.microsoft.identity.Broker1");
    assert_eq!(SESSION_BROKER_BUS_NAME, "com.microsoft.identity.broker1");
    assert_eq!(SESSION_BROKER_PATH, "/com/microsoft/identity/broker1");
    assert_eq!(CHUNK_SIZE, 1024);
}

#[test]
fn every_session_operation_reaches_its_method() {
    let mut broker = Echo;
    for (operation, _, method) in METHODS {
        let outcome = dispatch_session(&mut broker, operation, "0.1".into(), "corr".into(), "{}".into());
        assert_eq!(outcome, Ok(format!("{}(0.1,corr,{{}})", method)));
    }
    let outcome = dispatch_session(&mut broker, Operation::GetAccounts, "0.1".into(), "declined".into(), "{}".into());
    assert_eq!(outcome, Err(MethodErr::failed(&"get_accounts declined")));
}

#[test]
fn the_session_table_answers_every_operation_on_the_bus() {
    let mut table = session_broker_table(Echo);
    for (_, name, method) in METHODS {
        let reply = call_on_bus(&mut table, name, &["0.1", "corr-123", "{\"scope\":\"x\"}"]);
        let result: String = reply.read1().unwrap();
        assert_eq!(result, format!("{}(0.1,corr-123,{{\"scope\":\"x\"}})", method));
    }
    let mut reply = call_on_bus(&mut table, "getAccounts", &["0.1", "declined", "{}"]);
    let error = reply.as_result().unwrap_err();
    assert_eq!(error.name(), Some("org.freedesktop.DBus.Error.Failed"));
    assert_eq!(error.message(), Some("get_accounts declined"));
    let mut reply = call_on_bus(&mut table, "sign", &["0.1", "corr", "{}"]);
    assert!(reply.as_result().is_err());
}

#[test]
fn the_session_interface_is_registered_in_a_table_of_the_caller() {
    let mut table = Crossroads::new();
    let token = register_session_broker::<Echo>(&mut table);
    assert!(!table.has_interface(&SESSION_BROKER_PATH.into(), token));
    table.insert(SESSION_BROKER_PATH, &[token], Echo);
    assert!(table.has_interface(&SESSION_BROKER_PATH.into(), token));
    let reply = call_on_bus(&mut table, "removeAccount", &["a", "b", "c"]);
    let result: String = reply.read1().unwrap();
    assert_eq!(result, "remove_account(a,b,c)");
}

#[test]
fn a_relayed_call_begins_with_the_request_as_it_is_written() {
    let request = ClientRequest::acquireTokenSilently("0.1".into(), "corr-123".into(), "{\"scope\":\"x\"}".into());
    let (call, bytes) = RelayCall::begin(&request, 5);
    assert_eq!(call.phase(), RelayPhase::Sending);
    assert_eq!(
        bytes,
        b"{\"acquireTokenSilently\":[\"0.1\",\"corr-123\",\"{\\\"scope\\\":\\\"x\\\"}\"]}".to_vec()
    );
    assert_eq!(decode_request(&bytes), Some(request));
}

#[test]
fn a_short_response_within_the_time_is_delivered_unchanged() {
    let mut call = begun(5);
    assert_eq!(call.step(RelayEvent::Sent), RelayAction::CheckClock);
    assert_eq!(call.step(RelayEvent::Clock { elapsed_nanos: 4_999_999_999 }), RelayAction::Read);
    assert_eq!(
        call.step(RelayEvent::Chunk(b"{\"token\":\"abc\"}".to_vec())),
        RelayAction::Deliver("{\"token\":\"abc\"}".to_string())
    );
    assert_eq!(call.phase(), RelayPhase::Done);
}

#[test]
fn a_response_of_one_byte_less_than_a_chunk_is_complete() {
    let mut call = reading(5);
    let bytes = vec![b'a'; CHUNK_SIZE - 1];
    assert_eq!(
        call.step(RelayEvent::Chunk(bytes.clone())),
        RelayAction::Deliver(String::from_utf8(bytes).unwrap())
    );
}

#[test]
fn a_full_chunk_means_that_more_follows() {
    let mut call = reading(5);
    assert_eq!(call.step(RelayEvent::Chunk(vec![b'a'; CHUNK_SIZE])), RelayAction::CheckClock);
    assert_eq!(call.phase(), RelayPhase::Timing);
    assert_eq!(call.step(RelayEvent::Clock { elapsed_nanos: 1 }), RelayAction::Read);
    assert_eq!(call.step(RelayEvent::Chunk(vec![b'b'; CHUNK_SIZE])), RelayAction::CheckClock);
    assert_eq!(call.step(RelayEvent::Clock { elapsed_nanos: 2 }), RelayAction::Read);
    let mut expected = "a".repeat(CHUNK_SIZE);
    expected.push_str(&"b".repeat(CHUNK_SIZE));
    expected.push_str("end");
    assert_eq!(call.step(RelayEvent::Chunk(b"end".to_vec())), RelayAction::Deliver(expected));
}

#[test]
fn a_response_of_exactly_one_chunk_is_taken_for_unfinished() {
    let mut call = reading(5);
    assert_eq!(call.step(RelayEvent::Chunk(vec![b'a'; CHUNK_SIZE])), RelayAction::CheckClock);
    assert_eq!(call.step(RelayEvent::Clock { elapsed_nanos: 1 }), RelayAction::Read);
    assert_eq!(call.step(RelayEvent::Chunk(Vec::new())), RelayAction::Deliver("a".repeat(CHUNK_SIZE)));

    let mut call = reading(5);
    assert_eq!(call.step(RelayEvent::Chunk(vec![b'a'; CHUNK_SIZE])), RelayAction::CheckClock);
    assert_eq!(
        call.step(RelayEvent::Clock { elapsed_nanos: 5_000_000_001 }),
        RelayAction::Fail(RelayError::TimedOut)
    );
}

#[test]
fn a_read_of_nothing_before_any_data_keeps_waiting() {
    let mut call = reading(5);
    for round in 1..50u128 {
        assert_eq!(call.step(RelayEvent::Chunk(Vec::new())), RelayAction::CheckClock);
        assert_eq!(call.step(RelayEvent::Clock { elapsed_nanos: round * 100_000_000 }), RelayAction::Read);
    }
    assert_eq!(call.step(RelayEvent::Chunk(b"late".to_vec())), RelayAction::Deliver("late".to_string()));
}

#[test]
fn a_silent_peer_times_out() {
    let mut call = reading(2);
    let mut elapsed: u128 = 0;
    loop {
        assert_eq!(call.step(RelayEvent::Chunk(Vec::new())), RelayAction::CheckClock);
        elapsed += 300_000_000;
        let action = call.step(RelayEvent::Clock { elapsed_nanos: elapsed });
        if elapsed > 2_000_000_000 {
            assert_eq!(action, RelayAction::Fail(RelayError::TimedOut));
            break;
        }
        assert_eq!(action, RelayAction::Read);
    }
    assert_eq!(elapsed, 2_100_000_000);
    assert_eq!(call.phase(), RelayPhase::Done);
}

#[test]
fn the_time_allowed_is_kept_to_the_nanosecond() {
    let mut call = begun(3);
    call.step(RelayEvent::Sent);
    assert!(!call.is_late(0));
    assert!(!call.is_late(3_000_000_000));
    assert!(call.is_late(3_000_000_001));
    assert_eq!(call.step(RelayEvent::Clock { elapsed_nanos: 3_000_000_000 }), RelayAction::Read);

    let mut call = begun(0);
    call.step(RelayEvent::Sent);
    assert_eq!(call.step(RelayEvent::Clock { elapsed_nanos: 0 }), RelayAction::Read);
    let mut call = begun(0);
    call.step(RelayEvent::Sent);
    assert_eq!(call.step(RelayEvent::Clock { elapsed_nanos: 1 }), RelayAction::Fail(RelayError::TimedOut));

    let mut call = begun(u64::MAX);
    call.step(RelayEvent::Sent);
    assert!(!call.is_late(18_446_744_073_709_551_615_000_000_000));
    assert!(call.is_late(18_446_744_073_709_551_615_000_000_001));
}

#[test]
fn every_failure_of_the_relay_ends_the_call() {
    let mut call = begun(5);
    assert_eq!(call.step(RelayEvent::ConnectFailed), RelayAction::Fail(RelayError::ConnectFailed));
    assert_eq!(call.phase(), RelayPhase::Done);
    let mut call = begun(5);
    assert_eq!(call.step(RelayEvent::WriteFailed), RelayAction::Fail(RelayError::WriteFailed));
    assert_eq!(call.phase(), RelayPhase::Done);
    let mut call = begun(5);
    call.step(RelayEvent::Sent);
    assert_eq!(call.step(RelayEvent::ClockFailed), RelayAction::Fail(RelayError::ClockFailed));
    assert_eq!(call.phase(), RelayPhase::Done);
    let mut call = reading(5);
    assert_eq!(call.step(RelayEvent::ReadFailed), RelayAction::Fail(RelayError::ReadFailed));
    assert_eq!(call.phase(), RelayPhase::Done);
    let mut call = reading(5);
    assert_eq!(call.step(RelayEvent::Chunk(vec![0xff, 0xfe])), RelayAction::Fail(RelayError::NotUtf8));
    assert_eq!(call.phase(), RelayPhase::Done);
    let mut call = reading(5);
    assert_eq!(call.step(RelayEvent::Sent), RelayAction::Fail(RelayError::OutOfTurn));
    assert_eq!(call.step(RelayEvent::Chunk(b"x".to_vec())), RelayAction::Fail(RelayError::OutOfTurn));
    assert_eq!(call.phase(), RelayPhase::Done);
}

#[test]
fn the_end_of_a_relayed_call_is_the_answer_on_the_bus() {
    assert_eq!(relay_answer(RelayAction::Deliver("r".into())), Some(Ok("r".to_string())));
    assert_eq!(relay_answer(RelayAction::CheckClock), None);
    assert_eq!(relay_answer(RelayAction::Read), None);
    let status = relay_answer(RelayAction::Fail(RelayError::TimedOut)).unwrap().unwrap_err();
    assert_eq!(
        status_parts(&status),
        (
            "org.freedesktop.DBus.Error.Failed".to_string(),
            "timed out waiting for the response of the broker".to_string()
        )
    );
}

#[test]
fn every_relay_error_has_its_own_words() {
    let errors = [
        RelayError::ConnectFailed,
        RelayError::WriteFailed,
        RelayError::ReadFailed,
        RelayError::ClockFailed,
        RelayError::TimedOut,
        RelayError::NotUtf8,
        RelayError::OutOfTurn,
    ];
    for a in errors {
        assert!(!a.message().is_empty());
        assert_eq!(relay_status(a), MethodErr::failed(&a.message()));
        for b in errors {
            assert_eq!(a.message() == b.message(), a == b);
        }
    }
    assert_eq!(RelayError::ConnectFailed.message(), "could not connect to the broker socket");
}

#[test]
fn session_argument_names_are_the_well_known_ones() {
    assert_eq!(PROTOCOL_VERSION_ARGUMENT, "protocol_version");
    assert_eq!(CORRELATION_ID_ARGUMENT, "correlation_id");
    assert_eq!(REQUEST_ARGUMENT, "request_json");
    assert_eq!(RESULT_ARGUMENT, "result");
}

#[test]
fn the_session_table_describes_eight_methods_with_their_arguments() {
    let mut table = session_broker_table(Echo);
    let mut message = Message::new_method_call(
        "com.example.caller",
        SESSION_BROKER_PATH,
        "org.freedesktop.DBus.Introspectable",
        "Introspect",
    )
    .unwrap();
    message.set_serial(7);
    let replies: RefCell<Vec<Message>> = RefCell::new(Vec::new());
    table.handle_message(message, &replies).unwrap();
    let xml: String = replies.into_inner().pop().unwrap().read1().unwrap();
    let ours = xml
        .split("<interface name=\"com.microsoft.identity.Broker1\">")
        .nth(1)
        .unwrap()
        .split("</interface>")
        .next()
        .unwrap();
    assert_eq!(ours.matches("<method name=").count(), 8);
    for (_, name, _) in METHODS {
        let method = ours
            .split(&format!("<method name=\"{}\">", name))
            .nth(1)
            .unwrap()
            .split("</method>")
            .next()
            .unwrap();
        let arguments: Vec<&str> = method.split("<arg ").skip(1).collect();
        assert_eq!(arguments.len(), 4, "{}", name);
        assert!(arguments[0].starts_with("name=\"protocol_version\" type=\"s\" direction=\"in\""));
        assert!(arguments[1].starts_with("name=\"correlation_id\" type=\"s\" direction=\"in\""));
        assert!(arguments[2].starts_with("name=\"request_json\" type=\"s\" direction=\"in\""));
        assert!(arguments[3].starts_with("name=\"result\" type=\"s\" direction=\"out\""));
    }
}

#[test]
fn a_read_that_only_waited_leads_back_to_the_clock() {
    let mut call = reading(5);
    assert_eq!(call.step(RelayEvent::Waited), RelayAction::CheckClock);
    assert_eq!(call.phase(), RelayPhase::Timing);
    assert_eq!(call.step(RelayEvent::Clock { elapsed_nanos: 1 }), RelayAction::Read);
    assert_eq!(call.step(RelayEvent::Chunk(b"late".to_vec())), RelayAction::Deliver("late".to_string()));
}

#[test]
fn a_peer_that_stops_after_a_full_chunk_times_out_and_delivers_nothing() {
    let mut call = reading(5);
    assert_eq!(call.step(RelayEvent::Chunk(vec![b'a'; CHUNK_SIZE])), RelayAction::CheckClock);
    assert_eq!(call.step(RelayEvent::Clock { elapsed_nanos: 1 }), RelayAction::Read);
    assert_eq!(call.step(RelayEvent::Waited), RelayAction::CheckClock);
    assert_eq!(
        call.step(RelayEvent::Clock { elapsed_nanos: 5_000_000_001 }),
        RelayAction::Fail(RelayError::TimedOut)
    );
    assert_eq!(call.phase(), RelayPhase::Done);
}

#[test]
fn waiting_out_of_turn_ends_the_call() {
    let mut call = begun(5);
    assert_eq!(call.step(RelayEvent::Waited), RelayAction::Fail(RelayError::OutOfTurn));
}
