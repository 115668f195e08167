//! The privileged end of the broker socket: what a listener and each of its
//! connections decide.
//!
//! Reading from the socket, calling the broker and writing the answer are
//! done by whoever drives these types. The types say what is to be done
//! next: a [`Listener`] from binding the socket to the shutdown signal, a
//! [`ConnectionSession`] from the first request of a connection to its end.
//!
//! A connection belongs to one user: the user id that the kernel attached
//! to the socket when the connection was accepted. It is fixed for the whole
//! connection, and every call of the broker made for the connection carries
//! it.

use crate::broker_proto::{ClientRequest, Operation, RequestModel};
use vstd::prelude::*;

verus! {

/// What a call of the broker says: the operation, the three fields of the
/// request and the user for whom it is made.
pub struct InvocationModel {
    pub operation: Operation,
    pub protocol_version: Seq<char>,
    pub correlation_id: Seq<char>,
    pub request_json: Seq<char>,
    pub uid: u32,
}

/// One call of the broker that is to be made.
#[derive(PartialEq, Eq, Debug)]
pub struct Invocation {
    pub operation: Operation,
    pub protocol_version: String,
    pub correlation_id: String,
    pub request_json: String,
    pub uid: u32,
}

impl View for Invocation {
    type V = InvocationModel;

    open spec fn view(&self) -> InvocationModel {
        InvocationModel {
            operation: self.operation,
            protocol_version: self.protocol_version@,
            correlation_id: self.correlation_id@,
            request_json: self.request_json@,
            uid: self.uid,
        }
    }
}

/// The call of `operation` with the three given fields, for the user `uid`.
pub open spec fn spec_call(
    operation: Operation,
    protocol_version: Seq<char>,
    correlation_id: Seq<char>,
    request_json: Seq<char>,
    uid: u32,
) -> InvocationModel {
    InvocationModel { operation, protocol_version, correlation_id, request_json, uid }
}

/// The call that `request` asks for when it comes from the user `uid`.
pub open spec fn spec_route(request: RequestModel, uid: u32) -> InvocationModel {
    spec_call(
        request.operation,
        request.protocol_version,
        request.correlation_id,
        request.request_json,
        uid,
    )
}

/// Turns a request that came from the user `uid` into the call of the
/// broker that it asks for.
pub fn route(request: ClientRequest, uid: u32) -> (call: Invocation)
    ensures
        call@ == spec_route(request@, uid),
{
    let parts = request.into_parts();
    Invocation {
        operation: parts.0,
        protocol_version: parts.1,
        correlation_id: parts.2,
        request_json: parts.3,
        uid,
    }
}

/// What an identity broker can do for the clients of the socket. Each
/// method takes the three fields of a request and the user id of the
/// connection that the request came in on.
pub trait HimmelblauBroker: Sized {
    /// How the implementation reports that it could not serve a call.
    type Failure;

    /// The implementation's own account of its answers: whether, asked for
    /// `call`, it may give `outcome` and be left as `after`. An
    /// implementation that says nothing of itself leaves this as it is:
    /// anything may be its answer.
    open spec fn may_answer(
        &self,
        call: InvocationModel,
        outcome: Result<String, Self::Failure>,
        after: &Self,
    ) -> bool {
        true
    }

    fn acquire_token_interactively(
        &mut self,
        protocol_version: String,
        correlation_id: String,
        request_json: String,
        uid: libc::uid_t,
    ) -> (outcome: Result<String, Self::Failure>)
        ensures
            old(self).may_answer(
                spec_call(
                    Operation::AcquireTokenInteractively,
                    protocol_version@,
                    correlation_id@,
                    request_json@,
                    uid,
                ),
                outcome,
                final(self),
            ),
    ;

    fn acquire_token_silently(
        &mut self,
        protocol_version: String,
        correlation_id: String,
        request_json: String,
        uid: libc::uid_t,
    ) -> (outcome: Result<String, Self::Failure>)
        ensures
            old(self).may_answer(
                spec_call(
                    Operation::AcquireTokenSilently,
                    protocol_version@,
                    correlation_id@,
                    request_json@,
                    uid,
                ),
                outcome,
                final(self),
            ),
    ;

    fn get_accounts(
        &mut self,
        protocol_version: String,
        correlation_id: String,
        request_json: String,
        uid: libc::uid_t,
    ) -> (outcome: Result<String, Self::Failure>)
        ensures
            old(self).may_answer(
                spec_call(
                    Operation::GetAccounts,
                    protocol_version@,
                    correlation_id@,
                    request_json@,
                    uid,
                ),
                outcome,
                final(self),
            ),
    ;

    fn remove_account(
        &mut self,
        protocol_version: String,
        correlation_id: String,
        request_json: String,
        uid: libc::uid_t,
    ) -> (outcome: Result<String, Self::Failure>)
        ensures
            old(self).may_answer(
                spec_call(
                    Operation::RemoveAccount,
                    protocol_version@,
                    correlation_id@,
                    request_json@,
                    uid,
                ),
                outcome,
                final(self),
            ),
    ;

    fn acquire_prt_sso_cookie(
        &mut self,
        protocol_version: String,
        correlation_id: String,
        request_json: String,
        uid: libc::uid_t,
    ) -> (outcome: Result<String, Self::Failure>)
        ensures
            old(self).may_answer(
                spec_call(
                    Operation::AcquirePrtSsoCookie,
                    protocol_version@,
                    correlation_id@,
                    request_json@,
                    uid,
                ),
                outcome,
                final(self),
            ),
    ;

    fn generate_signed_http_request(
        &mut self,
        protocol_version: String,
        correlation_id: String,
        request_json: String,
        uid: libc::uid_t,
    ) -> (outcome: Result<String, Self::Failure>)
        ensures
            old(self).may_answer(
                spec_call(
                    Operation::GenerateSignedHttpRequest,
                    protocol_version@,
                    correlation_id@,
                    request_json@,
                    uid,
                ),
                outcome,
                final(self),
            ),
    ;

    fn cancel_interactive_flow(
        &mut self,
        protocol_version: String,
        correlation_id: String,
        request_json: String,
        uid: libc::uid_t,
    ) -> (outcome: Result<String, Self::Failure>)
        ensures
            old(self).may_answer(
                spec_call(
                    Operation::CancelInteractiveFlow,
                    protocol_version@,
                    correlation_id@,
                    request_json@,
                    uid,
                ),
                outcome,
                final(self),
            ),
    ;

    fn get_linux_broker_version(
        &mut self,
        protocol_version: String,
        correlation_id: String,
        request_json: String,
        uid: libc::uid_t,
    ) -> (outcome: Result<String, Self::Failure>)
        ensures
            old(self).may_answer(
                spec_call(
                    Operation::GetLinuxBrokerVersion,
                    protocol_version@,
                    correlation_id@,
                    request_json@,
                    uid,
                ),
                outcome,
                final(self),
            ),
    ;

}

/// Makes `call` on `broker`: the method that stands for the call's
/// operation gets the call's fields and user id as they are, and its answer
/// is handed back as it is.
pub fn invoke<T: HimmelblauBroker>(broker: &mut T, call: Invocation) -> (outcome: Result<
    String,
    T::Failure,
>)
    ensures
        old(broker).may_answer(call@, outcome, final(broker)),
{
    let Invocation { operation, protocol_version, correlation_id, request_json, uid } = call;
    match operation {
        Operation::AcquireTokenInteractively => broker.acquire_token_interactively(
            protocol_version,
            correlation_id,
            request_json,
            uid,
        ),
        Operation::AcquireTokenSilently => broker.acquire_token_silently(
            protocol_version,
            correlation_id,
            request_json,
            uid,
        ),
        Operation::GetAccounts => broker.get_accounts(
            protocol_version,
            correlation_id,
            request_json,
            uid,
        ),
        Operation::RemoveAccount => broker.remove_account(
            protocol_version,
            correlation_id,
            request_json,
            uid,
        ),
        Operation::AcquirePrtSsoCookie => broker.acquire_prt_sso_cookie(
            protocol_version,
            correlation_id,
            request_json,
            uid,
        ),
        Operation::GenerateSignedHttpRequest => broker.generate_signed_http_request(
            protocol_version,
            correlation_id,
            request_json,
            uid,
        ),
        Operation::CancelInteractiveFlow => broker.cancel_interactive_flow(
            protocol_version,
            correlation_id,
            request_json,
            uid,
        ),
        Operation::GetLinuxBrokerVersion => broker.get_linux_broker_version(
            protocol_version,
            correlation_id,
            request_json,
            uid,
        ),
    }
}

/// Where a connection stands.
#[derive(Clone, Copy, PartialEq, Eq, Structural, Debug)]
pub enum SessionPhase {
    /// Waiting for the next request.
    Reading,
    /// A request was handed to the broker; waiting for its answer.
    Dispatching,
    /// The answer is being written; waiting for the write to end.
    Writing,
    /// The connection is over.
    Closed,
}

/// Why a connection ended.
#[derive(Clone, Copy, PartialEq, Eq, Structural, Debug)]
pub enum CloseReason {
    /// The peer closed its end with nothing left unread.
    PeerClosed,
    /// Reading failed, or the input ended in the middle of a message.
    ReadFailed,
    /// The broker could not serve the call.
    BrokerFailed,
    /// Writing or flushing the answer failed.
    WriteFailed,
    /// Something was reported that cannot happen in the connection's phase.
    OutOfTurn,
}

impl CloseReason {
    /// Whether the connection's handler ends with an error. The end of the
    /// input is none, however it came about.
    pub open spec fn spec_is_failure(self) -> bool {
        self == CloseReason::BrokerFailed || self == CloseReason::WriteFailed || self
            == CloseReason::OutOfTurn
    }

    /// Whether the connection's handler ends with an error.
    pub fn is_failure(self) -> (failure: bool)
        ensures
            failure == self.spec_is_failure(),
    {
        match self {
            CloseReason::PeerClosed | CloseReason::ReadFailed => false,
            CloseReason::BrokerFailed | CloseReason::WriteFailed | CloseReason::OutOfTurn => true,
        }
    }
}

/// What happened on a connection, as its driver reports it.
#[derive(PartialEq, Eq, Debug)]
pub enum SessionEvent {
    /// A complete request arrived.
    Request(ClientRequest),
    /// The input ended with nothing left unread.
    EndOfInput,
    /// Reading failed, or the input ended in the middle of a message.
    ReadFailed,
    /// The broker answered the call with this result.
    Answered(String),
    /// The broker could not serve the call.
    BrokerFailed,
    /// The answer was written and flushed.
    Sent,
    /// Writing or flushing the answer failed.
    WriteFailed,
}

/// The mathematical content of a [`SessionEvent`].
pub enum SessionEventModel {
    Request(RequestModel),
    EndOfInput,
    ReadFailed,
    Answered(Seq<char>),
    BrokerFailed,
    Sent,
    WriteFailed,
}

impl View for SessionEvent {
    type V = SessionEventModel;

    open spec fn view(&self) -> SessionEventModel {
        match self {
            SessionEvent::Request(request) => SessionEventModel::Request(request@),
            SessionEvent::EndOfInput => SessionEventModel::EndOfInput,
            SessionEvent::ReadFailed => SessionEventModel::ReadFailed,
            SessionEvent::Answered(result) => SessionEventModel::Answered(result@),
            SessionEvent::BrokerFailed => SessionEventModel::BrokerFailed,
            SessionEvent::Sent => SessionEventModel::Sent,
            SessionEvent::WriteFailed => SessionEventModel::WriteFailed,
        }
    }
}

/// What the driver of a connection is to do next.
#[derive(PartialEq, Eq, Debug)]
pub enum SessionAction {
    /// Wait for the next request.
    Read,
    /// Make this call of the broker.
    Invoke(Invocation),
    /// Write this result to the peer, as it is, and flush.
    Write(String),
    /// End the connection.
    Close(CloseReason),
}

/// The mathematical content of a [`SessionAction`].
pub enum SessionActionModel {
    Read,
    Invoke(InvocationModel),
    Write(Seq<char>),
    Close(CloseReason),
}

impl View for SessionAction {
    type V = SessionActionModel;

    open spec fn view(&self) -> SessionActionModel {
        match self {
            SessionAction::Read => SessionActionModel::Read,
            SessionAction::Invoke(call) => SessionActionModel::Invoke(call@),
            SessionAction::Write(result) => SessionActionModel::Write(result@),
            SessionAction::Close(reason) => SessionActionModel::Close(*reason),
        }
    }
}

/// The state of a connection: whose it is and where it stands.
pub struct SessionModel {
    pub uid: u32,
    pub phase: SessionPhase,
}

/// The rules of a connection: the state after `event` and what is to be
/// done then.
///
/// A request is answered by exactly one call of the broker, made for the
/// connection's user; the broker's result is written back; then the next
/// request is read. The end of the input, a failure of the broker and a
/// failure of the socket each end the connection, and a connection that has
/// ended stays so.
pub open spec fn spec_step(state: SessionModel, event: SessionEventModel) -> (
    SessionModel,
    SessionActionModel,
) {
    match (state.phase, event) {
        (SessionPhase::Reading, SessionEventModel::Request(request)) => (
            SessionModel { uid: state.uid, phase: SessionPhase::Dispatching },
            SessionActionModel::Invoke(spec_route(request, state.uid)),
        ),
        (SessionPhase::Reading, SessionEventModel::EndOfInput) => (
            SessionModel { uid: state.uid, phase: SessionPhase::Closed },
            SessionActionModel::Close(CloseReason::PeerClosed),
        ),
        (SessionPhase::Reading, SessionEventModel::ReadFailed) => (
            SessionModel { uid: state.uid, phase: SessionPhase::Closed },
            SessionActionModel::Close(CloseReason::ReadFailed),
        ),
        (SessionPhase::Dispatching, SessionEventModel::Answered(result)) => (
            SessionModel { uid: state.uid, phase: SessionPhase::Writing },
            SessionActionModel::Write(result),
        ),
        (SessionPhase::Dispatching, SessionEventModel::BrokerFailed) => (
            SessionModel { uid: state.uid, phase: SessionPhase::Closed },
            SessionActionModel::Close(CloseReason::BrokerFailed),
        ),
        (SessionPhase::Writing, SessionEventModel::Sent) => (
            SessionModel { uid: state.uid, phase: SessionPhase::Reading },
            SessionActionModel::Read,
        ),
        (SessionPhase::Writing, SessionEventModel::WriteFailed) => (
            SessionModel { uid: state.uid, phase: SessionPhase::Closed },
            SessionActionModel::Close(CloseReason::WriteFailed),
        ),
        _ => (
            SessionModel { uid: state.uid, phase: SessionPhase::Closed },
            SessionActionModel::Close(CloseReason::OutOfTurn),
        ),
    }
}

/// One accepted connection.
pub struct ConnectionSession {
    uid: u32,
    phase: SessionPhase,
}

impl View for ConnectionSession {
    type V = SessionModel;

    closed spec fn view(&self) -> SessionModel {
        SessionModel { uid: self.uid, phase: self.phase }
    }
}

impl ConnectionSession {
    /// Opens the session of a connection that was just accepted.
    /// `peer_uid` is the user id that the kernel gave for the peer, or
    /// `None` where it gave none: then there is no session, and nothing is
    /// ever dispatched for the connection.
    pub fn open(peer_uid: Option<u32>) -> (session: Option<ConnectionSession>)
        ensures
            match peer_uid {
                Some(uid) => session matches Some(s) && s@ == (SessionModel {
                    uid,
                    phase: SessionPhase::Reading,
                }),
                None => session is None,
            },
    {
        match peer_uid {
            Some(uid) => Some(ConnectionSession { uid, phase: SessionPhase::Reading }),
            None => None,
        }
    }

    /// The user to whom the connection belongs.
    pub fn uid(&self) -> (uid: u32)
        ensures
            uid == self@.uid,
    {
        self.uid
    }

    /// Where the connection stands.
    pub fn phase(&self) -> (phase: SessionPhase)
        ensures
            phase == self@.phase,
    {
        self.phase
    }

    /// Takes in what happened and says what is to be done next.
    pub fn step(&mut self, event: SessionEvent) -> (action: SessionAction)
        ensures
            (final(self)@, action@) == spec_step(old(self)@, event@),
    {
        let (phase, action) = match (self.phase, event) {
            (SessionPhase::Reading, SessionEvent::Request(request)) => (
                SessionPhase::Dispatching,
                SessionAction::Invoke(route(request, self.uid)),
            ),
            (SessionPhase::Reading, SessionEvent::EndOfInput) => (
                SessionPhase::Closed,
                SessionAction::Close(CloseReason::PeerClosed),
            ),
            (SessionPhase::Reading, SessionEvent::ReadFailed) => (
                SessionPhase::Closed,
                SessionAction::Close(CloseReason::ReadFailed),
            ),
            (SessionPhase::Dispatching, SessionEvent::Answered(result)) => (
                SessionPhase::Writing,
                SessionAction::Write(result),
            ),
            (SessionPhase::Dispatching, SessionEvent::BrokerFailed) => (
                SessionPhase::Closed,
                SessionAction::Close(CloseReason::BrokerFailed),
            ),
            (SessionPhase::Writing, SessionEvent::Sent) => (
                SessionPhase::Reading,
                SessionAction::Read,
            ),
            (SessionPhase::Writing, SessionEvent::WriteFailed) => (
                SessionPhase::Closed,
                SessionAction::Close(CloseReason::WriteFailed),
            ),
            _ => (SessionPhase::Closed, SessionAction::Close(CloseReason::OutOfTurn)),
        };
        self.phase = phase;
        action
    }
}

/// What is done on a connection that starts in `state` and sees `events`,
/// one action for each event.
pub open spec fn spec_run(state: SessionModel, events: Seq<SessionEventModel>) -> Seq<
    SessionActionModel,
>
    decreases events.len(),
{
    if events.len() == 0 {
        seq![]
    } else {
        let (next, action) = spec_step(state, events[0]);
        seq![action] + spec_run(next, events.drop_first())
    }
}

/// Whatever happens on a connection, and however many requests it
/// carries, every call of the broker that is made for it carries the user
/// id that the connection was opened with.
pub proof fn law_calls_carry_the_connection_uid(
    state: SessionModel,
    events: Seq<SessionEventModel>,
    i: int,
)
    requires
        0 <= i < events.len(),
    ensures
        spec_run(state, events).len() == events.len(),
        spec_run(state, events)[i] matches SessionActionModel::Invoke(call) ==> call.uid
            == state.uid,
    decreases events.len(),
{
    let (next, action) = spec_step(state, events[0]);
    let rest = events.drop_first();
    lemma_run_len(next, rest);
    if i > 0 {
        law_calls_carry_the_connection_uid(next, rest, i - 1);
    }
}

/// A connection is over exactly when its driver is told to close it, and
/// it stays over: nothing is read, dispatched or written on a connection
/// that was closed.
pub proof fn law_closed_connection_stays_closed(state: SessionModel, event: SessionEventModel)
    ensures
        spec_step(state, event).0.phase == SessionPhase::Closed <==> spec_step(state, event).1
            is Close,
        state.phase == SessionPhase::Closed ==> spec_step(state, event).0.phase
            == SessionPhase::Closed,
        spec_step(state, event).0.uid == state.uid,
{
}

/// One action is taken for each event.
pub proof fn lemma_run_len(state: SessionModel, events: Seq<SessionEventModel>)
    ensures
        spec_run(state, events).len() == events.len(),
    decreases events.len(),
{
    if events.len() > 0 {
        lemma_run_len(spec_step(state, events[0]).0, events.drop_first());
    }
}

/// Where a listener stands, from before its socket is bound to after the
/// shutdown signal.
///
/// The socket is bound with the process's file creation mask set to zero,
/// so that every local user can connect: who may ask for what is decided by
/// the user id of each connection, not by the mode of the socket. The mask
/// is changed for the whole process, so only one listener may be between
/// [`ListenerAction::RelaxMask`] and [`ListenerAction::RestoreMask`] at a
/// time.
#[derive(Clone, Copy, PartialEq, Eq, Structural, Debug)]
pub enum ListenerPhase {
    /// Nothing was done yet.
    Idle,
    /// The mask is being set to zero.
    Relaxing,
    /// The mask is zero and the socket is being bound; `previous` is the
    /// mask that was in force before.
    Binding { previous: u32 },
    /// The mask is being set back; `bound` says whether the socket was
    /// bound.
    Restoring { bound: bool },
    /// Connections are accepted.
    Accepting,
    /// The shutdown signal came: no connection is accepted any more.
    Stopped,
    /// The socket could not be bound: the listener never accepted.
    Failed,
}

/// What happened to a listener, as its driver reports it.
#[derive(Clone, Copy, PartialEq, Eq, Structural, Debug)]
pub enum ListenerEvent {
    /// The listener is asked to start.
    Begin,
    /// The mask was set to zero; `previous` is the mask that was in force.
    MaskRelaxed { previous: u32 },
    /// The socket was bound.
    Bound,
    /// The socket could not be bound.
    BindFailed,
    /// The mask was set back.
    MaskRestored,
    /// A connection was accepted.
    Accepted,
    /// Accepting a connection failed.
    AcceptFailed,
    /// The shutdown signal was received, whatever it carried.
    Shutdown,
}

/// What the driver of a listener is to do next.
#[derive(Clone, Copy, PartialEq, Eq, Structural, Debug)]
pub enum ListenerAction {
    /// Set the file creation mask to zero and report the mask that was in
    /// force.
    RelaxMask,
    /// Bind the socket.
    Bind,
    /// Set the file creation mask to `mask`.
    RestoreMask { mask: u32 },
    /// Wait for the shutdown signal or the next connection, whichever comes
    /// first.
    Accept,
    /// Hand the accepted connection to a handler of its own and, without
    /// waiting for it, go on as for [`ListenerAction::Accept`].
    Spawn,
    /// Accept no more. Handlers that run are left to finish.
    Stop,
    /// Give up: the socket could not be bound.
    Abort,
}

/// The rules of a listener: the phase after `event` and what is to be done
/// then.
///
/// Whatever is reported while the mask is zero, the next thing done is to
/// set it back. A failure to accept one connection does not end the
/// listener. The shutdown signal does, and so does anything that cannot
/// happen while it accepts.
pub open spec fn spec_listen(phase: ListenerPhase, event: ListenerEvent) -> (
    ListenerPhase,
    ListenerAction,
) {
    match (phase, event) {
        (ListenerPhase::Idle, ListenerEvent::Begin) => (
            ListenerPhase::Relaxing,
            ListenerAction::RelaxMask,
        ),
        (ListenerPhase::Relaxing, ListenerEvent::MaskRelaxed { previous }) => (
            ListenerPhase::Binding { previous },
            ListenerAction::Bind,
        ),
        (ListenerPhase::Binding { previous }, ListenerEvent::Bound) => (
            ListenerPhase::Restoring { bound: true },
            ListenerAction::RestoreMask { mask: previous },
        ),
        (ListenerPhase::Binding { previous }, _) => (
            ListenerPhase::Restoring { bound: false },
            ListenerAction::RestoreMask { mask: previous },
        ),
        (ListenerPhase::Restoring { bound: true }, ListenerEvent::MaskRestored) => (
            ListenerPhase::Accepting,
            ListenerAction::Accept,
        ),
        (ListenerPhase::Accepting, ListenerEvent::Accepted) => (
            ListenerPhase::Accepting,
            ListenerAction::Spawn,
        ),
        (ListenerPhase::Accepting, ListenerEvent::AcceptFailed) => (
            ListenerPhase::Accepting,
            ListenerAction::Accept,
        ),
        (ListenerPhase::Accepting, _) => (ListenerPhase::Stopped, ListenerAction::Stop),
        (ListenerPhase::Stopped, _) => (ListenerPhase::Stopped, ListenerAction::Stop),
        _ => (ListenerPhase::Failed, ListenerAction::Abort),
    }
}

/// The listener of one broker socket.
pub struct Listener {
    phase: ListenerPhase,
}

impl View for Listener {
    type V = ListenerPhase;

    closed spec fn view(&self) -> ListenerPhase {
        self.phase
    }
}

impl Listener {
    /// A listener that has done nothing yet.
    pub fn new() -> (listener: Listener)
        ensures
            listener@ == ListenerPhase::Idle,
    {
        Listener { phase: ListenerPhase::Idle }
    }

    /// Where the listener stands.
    pub fn phase(&self) -> (phase: ListenerPhase)
        ensures
            phase == self@,
    {
        self.phase
    }

    /// Takes in what happened and says what is to be done next.
    pub fn step(&mut self, event: ListenerEvent) -> (action: ListenerAction)
        ensures
            (final(self)@, action) == spec_listen(old(self)@, event),
    {
        let (phase, action) = match (self.phase, event) {
            (ListenerPhase::Idle, ListenerEvent::Begin) => (
                ListenerPhase::Relaxing,
                ListenerAction::RelaxMask,
            ),
            (ListenerPhase::Relaxing, ListenerEvent::MaskRelaxed { previous }) => (
                ListenerPhase::Binding { previous },
                ListenerAction::Bind,
            ),
            (ListenerPhase::Binding { previous }, ListenerEvent::Bound) => (
                ListenerPhase::Restoring { bound: true },
                ListenerAction::RestoreMask { mask: previous },
            ),
            (ListenerPhase::Binding { previous }, _) => (
                ListenerPhase::Restoring { bound: false },
                ListenerAction::RestoreMask { mask: previous },
            ),
            (ListenerPhase::Restoring { bound: true }, ListenerEvent::MaskRestored) => (
                ListenerPhase::Accepting,
                ListenerAction::Accept,
            ),
            (ListenerPhase::Accepting, ListenerEvent::Accepted) => (
                ListenerPhase::Accepting,
                ListenerAction::Spawn,
            ),
            (ListenerPhase::Accepting, ListenerEvent::AcceptFailed) => (
                ListenerPhase::Accepting,
                ListenerAction::Accept,
            ),
            (ListenerPhase::Accepting, _) => (ListenerPhase::Stopped, ListenerAction::Stop),
            (ListenerPhase::Stopped, _) => (ListenerPhase::Stopped, ListenerAction::Stop),
            _ => (ListenerPhase::Failed, ListenerAction::Abort),
        };
        self.phase = phase;
        action
    }
}

/// What a listener does that starts in `phase` and sees `events`, one
/// action for each event.
pub open spec fn spec_listen_run(phase: ListenerPhase, events: Seq<ListenerEvent>) -> Seq<
    ListenerAction,
>
    decreases events.len(),
{
    if events.len() == 0 {
        seq![]
    } else {
        let (next, action) = spec_listen(phase, events[0]);
        seq![action] + spec_listen_run(next, events.drop_first())
    }
}

/// One action is taken for each event.
pub proof fn lemma_listen_run_len(phase: ListenerPhase, events: Seq<ListenerEvent>)
    ensures
        spec_listen_run(phase, events).len() == events.len(),
    decreases events.len(),
{
    if events.len() > 0 {
        lemma_listen_run_len(spec_listen(phase, events[0]).0, events.drop_first());
    }
}

/// A listener that was told to stop, or that gave up, never again accepts a
/// connection or hands one to a handler, whatever is reported to it.
pub proof fn law_no_accept_after_stop(
    phase: ListenerPhase,
    events: Seq<ListenerEvent>,
    i: int,
    j: int,
)
    requires
        0 <= i < j < events.len(),
        spec_listen_run(phase, events)[i] == ListenerAction::Stop || spec_listen_run(
            phase,
            events,
        )[i] == ListenerAction::Abort,
    ensures
        spec_listen_run(phase, events)[j] == spec_listen_run(phase, events)[i],
    decreases events.len(),
{
    let (next, action) = spec_listen(phase, events[0]);
    let rest = events.drop_first();
    lemma_listen_run_len(next, rest);
    if i > 0 {
        law_no_accept_after_stop(next, rest, i - 1, j - 1);
    } else {
        lemma_ended_stays_ended(next, rest, j - 1);
    }
}

/// From a phase in which the listener has ended, every action repeats how
/// it ended.
proof fn lemma_ended_stays_ended(phase: ListenerPhase, events: Seq<ListenerEvent>, j: int)
    requires
        0 <= j < events.len(),
        phase == ListenerPhase::Stopped || phase == ListenerPhase::Failed,
    ensures
        spec_listen_run(phase, events).len() == events.len(),
        phase == ListenerPhase::Stopped ==> spec_listen_run(phase, events)[j]
            == ListenerAction::Stop,
        phase == ListenerPhase::Failed ==> spec_listen_run(phase, events)[j]
            == ListenerAction::Abort,
    decreases events.len(),
{
    let (next, action) = spec_listen(phase, events[0]);
    let rest = events.drop_first();
    lemma_listen_run_len(next, rest);
    if j > 0 {
        lemma_ended_stays_ended(next, rest, j - 1);
    }
}

/// The file creation mask is set back to what it was as soon as the
/// attempt to bind is over, whether the socket was bound or not: whatever
/// is reported after [`ListenerAction::Bind`], the next action restores the
/// mask that was reported when it was relaxed.
pub proof fn law_mask_restored_after_bind(previous: u32, event: ListenerEvent)
    ensures
        ({
            let relaxed = spec_listen(
                ListenerPhase::Relaxing,
                ListenerEvent::MaskRelaxed { previous },
            );
            &&& relaxed.1 == ListenerAction::Bind
            &&& spec_listen(relaxed.0, event).1 == (ListenerAction::RestoreMask { mask: previous })
        }),
{
}

} // verus!
