use bytes::BytesMut;
use identity_broker::broker_proto::{ClientRequest, Operation};
use identity_broker::codec::ClientCodec;
use identity_broker::himmelblau_broker::{
    invoke, route, CloseReason, ConnectionSession, HimmelblauBroker, Invocation, Listener,
    ListenerAction, ListenerEvent, ListenerPhase, SessionAction, SessionEvent, SessionPhase,
};

/// A broker that records every call and answers with a token, except for
/// the user 0, whom it refuses.
struct Recorder {
    calls: Vec<(String, String, String, String, u32)>,
}

impl Recorder {
    fn record(&mut self, method: &str, v: String, c: String, r: String, uid: u32) -> Result<String, String> {
        self.calls.push((method.to_string(), v, c, r, uid));
        if uid == 0 {
            Err("refused".to_string())
        } else {
            Ok("{\"token\":\"abc\"}".to_string())
        }
    }
}

impl HimmelblauBroker for Recorder {
    type Failure = String;

    fn acquire_token_interactively(&mut self, v: String, c: String, r: String, uid: u32) -> Result<String, String> {
        self.record("acquire_token_interactively", v, c, r, uid)
    }
    fn acquire_token_silently(&mut self, v: String, c: String, r: String, uid: u32) -> Result<String, String> {
        self.record("acquire_token_silently", v, c, r, uid)
    }
    fn get_accounts(&mut self, v: String, c: String, r: String, uid: u32) -> Result<String, String> {
        self.record("get_accounts", v, c, r, uid)
    }
    fn remove_account(&mut self, v: String, c: String, r: String, uid: u32) -> Result<String, String> {
        self.record("remove_account", v, c, r, uid)
    }
    fn acquire_prt_sso_cookie(&mut self, v: String, c: String, r: String, uid: u32) -> Result<String, String> {
        self.record("acquire_prt_sso_cookie", v, c, r, uid)
    }
    fn generate_signed_http_request(&mut self, v: String, c: String, r: String, uid: u32) -> Result<String, String> {
        self.record("generate_signed_http_request", v, c, r, uid)
    }
    fn cancel_interactive_flow(&mut self, v: String, c: String, r: String, uid: u32) -> Result<String, String> {
        self.record("cancel_interactive_flow", v, c, r, uid)
    }
    fn get_linux_broker_version(&mut self, v: String, c: String, r: String, uid: u32) -> Result<String, String> {
        self.record("get_linux_broker_version", v, c, r, uid)
    }
}

const METHODS: [(Operation, &str); 8] = [
    (Operation::AcquireTokenInteractively, "acquire_token_interactively"),
    (Operation::AcquireTokenSilently, "acquire_token_silently"),
    (Operation::GetAccounts, "get_accounts"),
    (Operation::RemoveAccount, "remove_account"),
    (Operation::AcquirePrtSsoCookie, "acquire_prt_sso_cookie"),
    (Operation::GenerateSignedHttpRequest, "generate_signed_http_request"),
    (Operation::CancelInteractiveFlow, "cancel_interactive_flow"),
    (Operation::GetLinuxBrokerVersion, "get_linux_broker_version"),
];

fn call_of(operation: Operation, uid: u32) -> Invocation {
    Invocation {
        operation,
        protocol_version: "0.1".to_string(),
        correlation_id: "corr".to_string(),
        request_json: "{}".to_string(),
        uid,
    }
}

#[test]
fn a_request_is_routed_with_the_uid_of_its_connection() {
    let request = ClientRequest::getAccounts("0.1".into(), "corr".into(), "{}".into());
    assert_eq!(route(request, 1000), call_of(Operation::GetAccounts, 1000));
}

#[test]
fn every_operation_reaches_its_method_with_fields_and_uid() {
    let mut broker = Recorder { calls: Vec::new() };
    for (operation, method) in METHODS {
        let outcome = invoke(&mut broker, call_of(operation, 1000));
        assert_eq!(outcome, Ok("{\"token\":\"abc\"}".to_string()));
        assert_eq!(
            broker.calls.last().unwrap(),
            &(method.to_string(), "0.1".to_string(), "corr".to_string(), "{}".to_string(), 1000)
        );
    }
    assert_eq!(broker.calls.len(), 8);
}

#[test]
fn a_failure_of_the_broker_is_handed_back() {
    let mut broker = Recorder { calls: Vec::new() };
    assert_eq!(invoke(&mut broker, call_of(Operation::RemoveAccount, 0)), Err("refused".to_string()));
}

#[test]
fn without_peer_credentials_there_is_no_session() {
    assert!(ConnectionSession::open(None).is_none());
    let session = ConnectionSession::open(Some(0)).unwrap();
    assert_eq!(session.uid(), 0);
    assert_eq!(session.phase(), SessionPhase::Reading);
}

#[test]
fn silent_token_request_is_answered_with_the_result_and_nothing_else() {
    let mut codec = ClientCodec;
    let mut broker = Recorder { calls: Vec::new() };
    let mut session = ConnectionSession::open(Some(1000)).unwrap();

    let mut input = BytesMut::new();
    input.extend_from_slice(b"{\"acquireTokenSilently\":[\"0.1\",\"corr-123\",\"{\\\"scope\\\":\\\"x\\\"}\"]}");
    let request = codec.decode(&mut input).unwrap();

    let call = match session.step(SessionEvent::Request(request)) {
        SessionAction::Invoke(call) => call,
        other => panic!("{:?}", other),
    };
    assert_eq!(session.phase(), SessionPhase::Dispatching);
    let result = invoke(&mut broker, call).unwrap();
    assert_eq!(
        broker.calls,
        vec![(
            "acquire_token_silently".to_string(),
            "0.1".to_string(),
            "corr-123".to_string(),
            "{\"scope\":\"x\"}".to_string(),
            1000
        )]
    );

    let response = match session.step(SessionEvent::Answered(result)) {
        SessionAction::Write(response) => response,
        other => panic!("{:?}", other),
    };
    assert_eq!(session.phase(), SessionPhase::Writing);
    let mut output = BytesMut::new();
    codec.encode(response, &mut output).unwrap();
    assert_eq!(&output[..], b"{\"token\":\"abc\"}");

    assert_eq!(session.step(SessionEvent::Sent), SessionAction::Read);
    assert_eq!(session.phase(), SessionPhase::Reading);
}

#[test]
fn every_call_of_a_connection_carries_its_uid() {
    let mut session = ConnectionSession::open(Some(4242)).unwrap();
    for (operation, _) in METHODS {
        let request = ClientRequest::new(operation, "0.1".into(), "c".into(), "{}".into());
        match session.step(SessionEvent::Request(request)) {
            SessionAction::Invoke(call) => {
                assert_eq!(call, Invocation {
                    operation,
                    protocol_version: "0.1".into(),
                    correlation_id: "c".into(),
                    request_json: "{}".into(),
                    uid: 4242,
                });
            }
            other => panic!("{:?}", other),
        }
        assert_eq!(session.step(SessionEvent::Answered("ok".into())), SessionAction::Write("ok".into()));
        assert_eq!(session.step(SessionEvent::Sent), SessionAction::Read);
        assert_eq!(session.uid(), 4242);
    }
}

#[test]
fn the_end_of_the_input_closes_without_error() {
    let mut session = ConnectionSession::open(Some(1)).unwrap();
    assert_eq!(session.step(SessionEvent::EndOfInput), SessionAction::Close(CloseReason::PeerClosed));
    assert_eq!(session.phase(), SessionPhase::Closed);
    assert!(!CloseReason::PeerClosed.is_failure());
    assert!(!CloseReason::ReadFailed.is_failure());
    assert!(CloseReason::BrokerFailed.is_failure());
    assert!(CloseReason::WriteFailed.is_failure());
    assert!(CloseReason::OutOfTurn.is_failure());
}

#[test]
fn failures_close_the_connection() {
    let mut session = ConnectionSession::open(Some(1)).unwrap();
    assert_eq!(session.step(SessionEvent::ReadFailed), SessionAction::Close(CloseReason::ReadFailed));
    assert_eq!(session.phase(), SessionPhase::Closed);

    let mut session = ConnectionSession::open(Some(1)).unwrap();
    let request = ClientRequest::getAccounts("0.1".into(), "c".into(), "{}".into());
    assert!(matches!(session.step(SessionEvent::Request(request)), SessionAction::Invoke(_)));
    assert_eq!(session.step(SessionEvent::BrokerFailed), SessionAction::Close(CloseReason::BrokerFailed));
    assert_eq!(session.phase(), SessionPhase::Closed);

    let mut session = ConnectionSession::open(Some(1)).unwrap();
    let request = ClientRequest::getAccounts("0.1".into(), "c".into(), "{}".into());
    assert!(matches!(session.step(SessionEvent::Request(request)), SessionAction::Invoke(_)));
    assert_eq!(session.step(SessionEvent::Answered("r".into())), SessionAction::Write("r".into()));
    assert_eq!(session.step(SessionEvent::WriteFailed), SessionAction::Close(CloseReason::WriteFailed));
    assert_eq!(session.phase(), SessionPhase::Closed);
}

#[test]
fn a_closed_connection_stays_closed() {
    let mut session = ConnectionSession::open(Some(1)).unwrap();
    assert_eq!(session.step(SessionEvent::EndOfInput), SessionAction::Close(CloseReason::PeerClosed));
    let request = ClientRequest::getAccounts("0.1".into(), "c".into(), "{}".into());
    assert_eq!(session.step(SessionEvent::Request(request)), SessionAction::Close(CloseReason::OutOfTurn));
    assert_eq!(session.step(SessionEvent::Sent), SessionAction::Close(CloseReason::OutOfTurn));
    assert_eq!(session.phase(), SessionPhase::Closed);
}

#[test]
fn what_comes_out_of_turn_closes_the_connection() {
    let mut session = ConnectionSession::open(Some(1)).unwrap();
    assert_eq!(session.step(SessionEvent::Answered("r".into())), SessionAction::Close(CloseReason::OutOfTurn));
    let mut session = ConnectionSession::open(Some(1)).unwrap();
    let request = ClientRequest::getAccounts("0.1".into(), "c".into(), "{}".into());
    assert!(matches!(session.step(SessionEvent::Request(request)), SessionAction::Invoke(_)));
    let second = ClientRequest::getAccounts("0.1".into(), "c".into(), "{}".into());
    assert_eq!(session.step(SessionEvent::Request(second)), SessionAction::Close(CloseReason::OutOfTurn));
}

fn started() -> Listener {
    let mut listener = Listener::new();
    assert_eq!(listener.phase(), ListenerPhase::Idle);
    assert_eq!(listener.step(ListenerEvent::Begin), ListenerAction::RelaxMask);
    assert_eq!(listener.step(ListenerEvent::MaskRelaxed { previous: 0o022 }), ListenerAction::Bind);
    assert_eq!(listener.phase(), ListenerPhase::Binding { previous: 0o022 });
    listener
}

#[test]
fn the_mask_is_restored_after_the_socket_was_bound() {
    let mut listener = started();
    assert_eq!(listener.step(ListenerEvent::Bound), ListenerAction::RestoreMask { mask: 0o022 });
    assert_eq!(listener.step(ListenerEvent::MaskRestored), ListenerAction::Accept);
    assert_eq!(listener.phase(), ListenerPhase::Accepting);
}

#[test]
fn the_mask_is_restored_when_the_socket_could_not_be_bound() {
    let mut listener = started();
    assert_eq!(listener.step(ListenerEvent::BindFailed), ListenerAction::RestoreMask { mask: 0o022 });
    assert_eq!(listener.phase(), ListenerPhase::Restoring { bound: false });
    assert_eq!(listener.step(ListenerEvent::MaskRestored), ListenerAction::Abort);
    assert_eq!(listener.phase(), ListenerPhase::Failed);
    assert_eq!(listener.step(ListenerEvent::Accepted), ListenerAction::Abort);
}

#[test]
fn connections_are_accepted_until_the_shutdown_signal() {
    let mut listener = started();
    listener.step(ListenerEvent::Bound);
    listener.step(ListenerEvent::MaskRestored);
    assert_eq!(listener.step(ListenerEvent::Accepted), ListenerAction::Spawn);
    assert_eq!(listener.step(ListenerEvent::AcceptFailed), ListenerAction::Accept);
    assert_eq!(listener.step(ListenerEvent::Accepted), ListenerAction::Spawn);
    assert_eq!(listener.phase(), ListenerPhase::Accepting);
    assert_eq!(listener.step(ListenerEvent::Shutdown), ListenerAction::Stop);
    assert_eq!(listener.phase(), ListenerPhase::Stopped);
    assert_eq!(listener.step(ListenerEvent::Accepted), ListenerAction::Stop);
    assert_eq!(listener.step(ListenerEvent::Begin), ListenerAction::Stop);
    assert_eq!(listener.phase(), ListenerPhase::Stopped);
}

#[test]
fn a_listener_driven_out_of_turn_gives_up() {
    let mut listener = Listener::new();
    assert_eq!(listener.step(ListenerEvent::Accepted), ListenerAction::Abort);
    assert_eq!(listener.phase(), ListenerPhase::Failed);
    let mut listener = Listener::new();
    listener.step(ListenerEvent::Begin);
    assert_eq!(listener.step(ListenerEvent::Bound), ListenerAction::Abort);
}
