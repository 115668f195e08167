//! The session end of the broker: the bus interface that desktop programs
//! call, and the relay that carries each call to the broker socket.
//!
//! The session broker decides nothing. Each call is written to the socket
//! as one request, over a connection of its own, and whatever comes back is
//! the call's result.
//!
//! A response has no length in front of it and no mark behind it. The relay
//! reads it in chunks of [`CHUNK_SIZE`] bytes and takes a chunk that is not
//! full for the last one. A response whose length is a multiple of the
//! chunk size is therefore taken for unfinished until the peer closes its
//! end or the time is up.

use crate::broker_proto::{ClientRequest, Operation};
use crate::bus::{
    expose_session_method, failed_status, insert_object, is_member_name, new_table, object_paths,
    path_interfaces, register_session_interface, registered_interfaces, registered_members,
    spec_shape, status_message, status_name, InterfaceDraft, MethodShape, RegisteredInterface,
    FAILED_STATUS,
};
use crate::codec::{encode_request, text_of};
use crate::wire::spec_encode;
use vstd::prelude::*;
use vstd::utf8::{decode_utf8, encode_utf8, valid_utf8};

verus! {

/// The interface under which the session broker's operations are offered.
pub const SESSION_BROKER_INTERFACE: &'static str = "com.microsoft.identity.Broker1";

/// The bus name that a session broker service claims.
pub const SESSION_BROKER_BUS_NAME: &'static str = "com.microsoft.identity.broker1";

/// The one object path at which the session broker answers.
pub const SESSION_BROKER_PATH: &'static str = "/com/microsoft/identity/broker1";

/// What a session broker can do. Each method takes the three fields of a
/// request and gives back one result or a declined status.
pub trait SessionBroker: Sized {
    /// The implementation's own account of its answers: whether, asked for
    /// `operation` with these arguments, it may give `outcome` and be left
    /// as `after`. An implementation that says nothing of itself leaves
    /// this as it is: anything may be its answer.
    open spec fn may_answer(
        &self,
        operation: Operation,
        protocol_version: Seq<char>,
        correlation_id: Seq<char>,
        request_json: Seq<char>,
        outcome: Result<String, dbus::MethodErr>,
        after: &Self,
    ) -> bool {
        true
    }

    fn acquire_token_interactively(
        &mut self,
        protocol_version: String,
        correlation_id: String,
        request_json: String,
    ) -> (outcome: Result<String, dbus::MethodErr>)
        ensures
            old(self).may_answer(
                Operation::AcquireTokenInteractively,
                protocol_version@,
                correlation_id@,
                request_json@,
                outcome,
                final(self),
            ),
    ;

    fn acquire_token_silently(
        &mut self,
        protocol_version: String,
        correlation_id: String,
        request_json: String,
    ) -> (outcome: Result<String, dbus::MethodErr>)
        ensures
            old(self).may_answer(
                Operation::AcquireTokenSilently,
                protocol_version@,
                correlation_id@,
                request_json@,
                outcome,
                final(self),
            ),
    ;

    fn get_accounts(
        &mut self,
        protocol_version: String,
        correlation_id: String,
        request_json: String,
    ) -> (outcome: Result<String, dbus::MethodErr>)
        ensures
            old(self).may_answer(
                Operation::GetAccounts,
                protocol_version@,
                correlation_id@,
                request_json@,
                outcome,
                final(self),
            ),
    ;

    fn remove_account(
        &mut self,
        protocol_version: String,
        correlation_id: String,
        request_json: String,
    ) -> (outcome: Result<String, dbus::MethodErr>)
        ensures
            old(self).may_answer(
                Operation::RemoveAccount,
                protocol_version@,
                correlation_id@,
                request_json@,
                outcome,
                final(self),
            ),
    ;

    fn acquire_prt_sso_cookie(
        &mut self,
        protocol_version: String,
        correlation_id: String,
        request_json: String,
    ) -> (outcome: Result<String, dbus::MethodErr>)
        ensures
            old(self).may_answer(
                Operation::AcquirePrtSsoCookie,
                protocol_version@,
                correlation_id@,
                request_json@,
                outcome,
                final(self),
            ),
    ;

    fn generate_signed_http_request(
        &mut self,
        protocol_version: String,
        correlation_id: String,
        request_json: String,
    ) -> (outcome: Result<String, dbus::MethodErr>)
        ensures
            old(self).may_answer(
                Operation::GenerateSignedHttpRequest,
                protocol_version@,
                correlation_id@,
                request_json@,
                outcome,
                final(self),
            ),
    ;

    fn cancel_interactive_flow(
        &mut self,
        protocol_version: String,
        correlation_id: String,
        request_json: String,
    ) -> (outcome: Result<String, dbus::MethodErr>)
        ensures
            old(self).may_answer(
                Operation::CancelInteractiveFlow,
                protocol_version@,
                correlation_id@,
                request_json@,
                outcome,
                final(self),
            ),
    ;

    fn get_linux_broker_version(
        &mut self,
        protocol_version: String,
        correlation_id: String,
        request_json: String,
    ) -> (outcome: Result<String, dbus::MethodErr>)
        ensures
            old(self).may_answer(
                Operation::GetLinuxBrokerVersion,
                protocol_version@,
                correlation_id@,
                request_json@,
                outcome,
                final(self),
            ),
    ;

}

/// Asks `broker` for `operation`: the three fields are handed on as they
/// are, and the broker's answer is handed back as it is, a declined status
/// included.
pub fn dispatch_session<T: SessionBroker>(
    broker: &mut T,
    operation: Operation,
    protocol_version: String,
    correlation_id: String,
    request_json: String,
) -> (outcome: Result<String, dbus::MethodErr>)
    ensures
        old(broker).may_answer(
            operation,
            protocol_version@,
            correlation_id@,
            request_json@,
            outcome,
            final(broker),
        ),
{
    match operation {
        Operation::AcquireTokenInteractively => broker.acquire_token_interactively(
            protocol_version,
            correlation_id,
            request_json,
        ),
        Operation::AcquireTokenSilently => broker.acquire_token_silently(
            protocol_version,
            correlation_id,
            request_json,
        ),
        Operation::GetAccounts => broker.get_accounts(
            protocol_version,
            correlation_id,
            request_json,
        ),
        Operation::RemoveAccount => broker.remove_account(
            protocol_version,
            correlation_id,
            request_json,
        ),
        Operation::AcquirePrtSsoCookie => broker.acquire_prt_sso_cookie(
            protocol_version,
            correlation_id,
            request_json,
        ),
        Operation::GenerateSignedHttpRequest => broker.generate_signed_http_request(
            protocol_version,
            correlation_id,
            request_json,
        ),
        Operation::CancelInteractiveFlow => broker.cancel_interactive_flow(
            protocol_version,
            correlation_id,
            request_json,
        ),
        Operation::GetLinuxBrokerVersion => broker.get_linux_broker_version(
            protocol_version,
            correlation_id,
            request_json,
        ),
    }
}

/// Every operation's name is one that the bus accepts for a method.
pub proof fn law_operation_names_are_member_names(operation: Operation)
    ensures
        is_member_name(operation.spec_wire_name()),
{
    match operation {
        Operation::AcquireTokenInteractively => reveal_strlit("acquireTokenInteractively"),
        Operation::AcquireTokenSilently => reveal_strlit("acquireTokenSilently"),
        Operation::GetAccounts => reveal_strlit("getAccounts"),
        Operation::RemoveAccount => reveal_strlit("removeAccount"),
        Operation::AcquirePrtSsoCookie => reveal_strlit("acquirePrtSsoCookie"),
        Operation::GenerateSignedHttpRequest => reveal_strlit("generateSignedHttpRequest"),
        Operation::CancelInteractiveFlow => reveal_strlit("cancelInteractiveFlow"),
        Operation::GetLinuxBrokerVersion => reveal_strlit("getLinuxBrokerVersion"),
    }
}

/// The name of the first argument of every method: the protocol version.
pub const PROTOCOL_VERSION_ARGUMENT: &'static str = "protocol_version";

/// The name of the second argument of every method: the correlation id.
pub const CORRELATION_ID_ARGUMENT: &'static str = "correlation_id";

/// The name of the third argument of every method: the request document.
pub const REQUEST_ARGUMENT: &'static str = "request_json";

/// The name of the one result of every method.
pub const RESULT_ARGUMENT: &'static str = "result";

/// The shape of every method of the session broker: a protocol version, a
/// correlation id and a request document go in, one result comes back.
pub open spec fn spec_session_shape() -> MethodShape {
    spec_shape(
        seq![PROTOCOL_VERSION_ARGUMENT@, CORRELATION_ID_ARGUMENT@, REQUEST_ARGUMENT@],
        seq![RESULT_ARGUMENT@],
    )
}

/// The methods that stand for `operations`: one under the name of each.
pub open spec fn spec_session_members_of(operations: Seq<Operation>) -> Map<
    Seq<char>,
    MethodShape,
> {
    Map::new(
        |name: Seq<char>|
            exists|k: int|
                0 <= k < operations.len() && #[trigger] operations[k].spec_wire_name() == name,
        |name: Seq<char>| spec_session_shape(),
    )
}

/// The methods of the session broker's interface: one for each operation,
/// under the operation's name, and no other.
pub open spec fn spec_session_members() -> Map<Seq<char>, MethodShape> {
    spec_session_members_of(Operation::spec_all())
}

/// The interface has a method of a given name exactly where an operation
/// goes by that name. With [`Operation::law_wire_names_distinct`], the
/// names and the operations stand one to one.
pub proof fn law_session_members_are_the_operations(name: Seq<char>)
    ensures
        spec_session_members().contains_key(name) <==> exists|operation: Operation|
            #[trigger] operation.spec_wire_name() == name,
        spec_session_members().contains_key(name) ==> spec_session_members()[name]
            == spec_session_shape(),
{
    let all = Operation::spec_all();
    if exists|operation: Operation| #[trigger] operation.spec_wire_name() == name {
        let operation = choose|operation: Operation| #[trigger] operation.spec_wire_name() == name;
        Operation::law_all_complete(operation);
        let k = choose|k: int| 0 <= k < all.len() && #[trigger] all[k] == operation;
        assert(all[k].spec_wire_name() == name);
    }
}

/// Adds one bus method for each operation of the session broker, under the
/// operation's name and with the shape of [`spec_session_shape`]. Methods
/// that the interface holds already are kept as they are.
pub(crate) fn describe_session_broker<T: SessionBroker + Send + 'static>(
    draft: &mut InterfaceDraft<T>,
)
    ensures
        final(draft).members() == spec_session_members().union_prefer_right(
            old(draft).members(),
        ),
{
    let operations = Operation::all();
    let mut i: usize = 0;
    assert(draft.members() =~= spec_session_members_of(
        operations@.take(0),
    ).union_prefer_right(old(draft).members()));
    while i < operations.len()
        invariant
            i <= operations.len(),
            operations@ == Operation::spec_all(),
            draft.members() == spec_session_members_of(
                operations@.take(i as int),
            ).union_prefer_right(old(draft).members()),
        decreases operations.len() - i,
    {
        let operation = operations[i];
        proof {
            law_operation_names_are_member_names(operation);
        }
        expose_session_method(
            draft,
            operation.wire_name(),
            (PROTOCOL_VERSION_ARGUMENT, CORRELATION_ID_ARGUMENT, REQUEST_ARGUMENT),
            (RESULT_ARGUMENT,),
            operation,
        );
        proof {
            let done = operations@.take(i as int);
            let next = operations@.take(i + 1);
            assert(next[i as int] == operation);
            assert forall|k: int| 0 <= k < done.len() implies done[k] == next[k] by {}
            assert forall|name: Seq<char>|
                spec_session_members_of(next).contains_key(name) <==> (spec_session_members_of(
                    done,
                ).contains_key(name) || name == operation.spec_wire_name()) by {
                if spec_session_members_of(next).contains_key(name) {
                    let k = choose|k: int|
                        0 <= k < next.len() && #[trigger] next[k].spec_wire_name() == name;
                    if k < i {
                        assert(done[k].spec_wire_name() == name);
                    }
                }
                if spec_session_members_of(done).contains_key(name) {
                    let k = choose|k: int|
                        0 <= k < done.len() && #[trigger] done[k].spec_wire_name() == name;
                    assert(next[k].spec_wire_name() == name);
                }
                if name == operation.spec_wire_name() {
                    assert(next[i as int].spec_wire_name() == name);
                }
            }
            assert(draft.members() =~= spec_session_members_of(next).union_prefer_right(
                old(draft).members(),
            ));
        }
        i += 1;
    }
    assert(operations@.take(operations.len() as int) =~= operations@);
}

/// Registers the session broker's interface in `table` and gives back its
/// handle with its place.
fn register_session<T: SessionBroker + Send + 'static>(
    table: &mut dbus_crossroads::Crossroads,
) -> (registered: RegisteredInterface<T>)
    ensures
        registered_interfaces(*final(table)) == registered_interfaces(*old(table)).push(
            SESSION_BROKER_INTERFACE@,
        ),
        registered_members(*final(table)) == registered_members(*old(table)).push(
            spec_session_members(),
        ),
        object_paths(*final(table)) == object_paths(*old(table)),
        registered.place() == registered_interfaces(*old(table)).len(),
{
    proof {
        reveal_strlit("com.microsoft.identity.Broker1");
        assert(SESSION_BROKER_INTERFACE@[3] == '.');
    }
    register_session_interface(table, SESSION_BROKER_INTERFACE)
}

/// Registers the session broker's interface in `cr` and gives back its
/// handle. The interface is the last in the table and holds one method for
/// each operation of the session broker, under the operation's name; no
/// path is added.
pub fn register_session_broker<T>(cr: &mut dbus_crossroads::Crossroads) -> (token:
    dbus_crossroads::IfaceToken<T>) where T: SessionBroker + Send + 'static
    ensures
        registered_interfaces(*final(cr)) == registered_interfaces(*old(cr)).push(
            SESSION_BROKER_INTERFACE@,
        ),
        registered_members(*final(cr)) == registered_members(*old(cr)).push(
            spec_session_members(),
        ),
        object_paths(*final(cr)) == object_paths(*old(cr)),
{
    register_session(cr).into_token()
}

/// The table of a session broker service: the session broker's interface,
/// registered last and with one method for each operation, and `broker`
/// answering for it at [`SESSION_BROKER_PATH`].
pub fn session_broker_table<T>(broker: T) -> (table: dbus_crossroads::Crossroads) where
    T: SessionBroker + Send + 'static,
    ensures
        registered_interfaces(table).len() > 0,
        registered_members(table).len() == registered_interfaces(table).len(),
        registered_interfaces(table).last() == SESSION_BROKER_INTERFACE@,
        registered_members(table).last() == spec_session_members(),
        object_paths(table).contains(SESSION_BROKER_PATH@),
        path_interfaces(table, SESSION_BROKER_PATH@).contains(
            registered_interfaces(table).len() - 1,
        ),
{
    let mut table = new_table();
    let registered = register_session::<T>(&mut table);
    proof {
        reveal_strlit("/com/microsoft/identity/broker1");
    }
    insert_object(&mut table, SESSION_BROKER_PATH, registered, broker);
    table
}

/// The number of bytes that the relay asks for in one read.
pub const CHUNK_SIZE: usize = 1024;

/// Why a relayed call gave no result.
#[derive(Clone, Copy, PartialEq, Eq, Structural, Debug)]
pub enum RelayError {
    /// The socket could not be connected to.
    ConnectFailed,
    /// The request could not be written or flushed.
    WriteFailed,
    /// Reading the response failed.
    ReadFailed,
    /// The clock could not be read.
    ClockFailed,
    /// No complete response came within the time allowed.
    TimedOut,
    /// The response is not UTF-8.
    NotUtf8,
    /// Something was reported that cannot happen in the call's phase.
    OutOfTurn,
}

impl RelayError {
    /// The words in which the error is reported to the caller.
    pub open spec fn spec_message(self) -> Seq<char> {
        match self {
            RelayError::ConnectFailed => "could not connect to the broker socket"@,
            RelayError::WriteFailed => "could not write the request to the broker socket"@,
            RelayError::ReadFailed => "could not read the response from the broker socket"@,
            RelayError::ClockFailed => "could not read the clock"@,
            RelayError::TimedOut => "timed out waiting for the response of the broker"@,
            RelayError::NotUtf8 => "the response of the broker is not valid UTF-8"@,
            RelayError::OutOfTurn => "the relay was driven out of turn"@,
        }
    }

    /// The words in which the error is reported to the caller.
    pub fn message(self) -> (message: &'static str)
        ensures
            message@ == self.spec_message(),
    {
        match self {
            RelayError::ConnectFailed => "could not connect to the broker socket",
            RelayError::WriteFailed => "could not write the request to the broker socket",
            RelayError::ReadFailed => "could not read the response from the broker socket",
            RelayError::ClockFailed => "could not read the clock",
            RelayError::TimedOut => "timed out waiting for the response of the broker",
            RelayError::NotUtf8 => "the response of the broker is not valid UTF-8",
            RelayError::OutOfTurn => "the relay was driven out of turn",
        }
    }
}

/// Where a relayed call stands.
#[derive(Clone, Copy, PartialEq, Eq, Structural, Debug)]
pub enum RelayPhase {
    /// The connection is being made and the request written.
    Sending,
    /// The clock is being read.
    Timing,
    /// The next chunk is being read.
    Reading,
    /// The call is over and its connection released.
    Done,
}

/// What happened to a relayed call, as its driver reports it.
#[derive(PartialEq, Eq, Debug)]
pub enum RelayEvent {
    /// The connection was made, the request written and flushed.
    Sent,
    /// The socket could not be connected to.
    ConnectFailed,
    /// The request could not be written or flushed.
    WriteFailed,
    /// The time since the request was sent, in nanoseconds.
    Clock { elapsed_nanos: u128 },
    /// The clock could not be read.
    ClockFailed,
    /// A read gave these bytes; none where it gave nothing.
    Chunk(Vec<u8>),
    /// A read waited as long as it may and nothing came.
    Waited,
    /// Reading failed.
    ReadFailed,
}

/// The mathematical content of a [`RelayEvent`].
pub enum RelayEventModel {
    Sent,
    ConnectFailed,
    WriteFailed,
    Clock { elapsed_nanos: u128 },
    ClockFailed,
    Chunk(Seq<u8>),
    Waited,
    ReadFailed,
}

impl View for RelayEvent {
    type V = RelayEventModel;

    open spec fn view(&self) -> RelayEventModel {
        match self {
            RelayEvent::Sent => RelayEventModel::Sent,
            RelayEvent::ConnectFailed => RelayEventModel::ConnectFailed,
            RelayEvent::WriteFailed => RelayEventModel::WriteFailed,
            RelayEvent::Clock { elapsed_nanos } => RelayEventModel::Clock {
                elapsed_nanos: *elapsed_nanos,
            },
            RelayEvent::ClockFailed => RelayEventModel::ClockFailed,
            RelayEvent::Chunk(bytes) => RelayEventModel::Chunk(bytes@),
            RelayEvent::Waited => RelayEventModel::Waited,
            RelayEvent::ReadFailed => RelayEventModel::ReadFailed,
        }
    }
}

/// What the driver of a relayed call is to do next. With
/// [`RelayAction::Deliver`] and [`RelayAction::Fail`] the call is over: the
/// driver releases the connection, whichever of the two it is.
#[derive(PartialEq, Eq, Debug)]
pub enum RelayAction {
    /// Read the time that has passed since the request was sent.
    CheckClock,
    /// Read up to [`CHUNK_SIZE`] bytes, waiting no longer than until the time
    /// allowed is over.
    Read,
    /// Give this result to the caller.
    Deliver(String),
    /// Give this error to the caller.
    Fail(RelayError),
}

/// The mathematical content of a [`RelayAction`].
pub enum RelayActionModel {
    CheckClock,
    Read,
    Deliver(Seq<char>),
    Fail(RelayError),
}

impl View for RelayAction {
    type V = RelayActionModel;

    open spec fn view(&self) -> RelayActionModel {
        match self {
            RelayAction::CheckClock => RelayActionModel::CheckClock,
            RelayAction::Read => RelayActionModel::Read,
            RelayAction::Deliver(result) => RelayActionModel::Deliver(result@),
            RelayAction::Fail(error) => RelayActionModel::Fail(*error),
        }
    }
}

/// The state of a relayed call.
pub struct RelayModel {
    /// The time allowed for the response, in seconds.
    pub timeout_secs: u64,
    pub phase: RelayPhase,
    /// The bytes of the response that have come so far.
    pub received: Seq<u8>,
    /// Whether a full chunk has come, so that more is expected.
    pub more_follows: bool,
}

/// Whether the time `elapsed_nanos` is beyond the `timeout_secs` allowed.
pub open spec fn spec_is_late(timeout_secs: u64, elapsed_nanos: u128) -> bool {
    elapsed_nanos > timeout_secs * 1_000_000_000
}

/// The end of a call whose response is `bytes`: the text that they are, or
/// an error where they are no text.
pub open spec fn spec_complete(state: RelayModel, bytes: Seq<u8>) -> (
    RelayModel,
    RelayActionModel,
) {
    (
        RelayModel {
            timeout_secs: state.timeout_secs,
            phase: RelayPhase::Done,
            received: Seq::<u8>::empty(),
            more_follows: state.more_follows,
        },
        if valid_utf8(bytes) {
            RelayActionModel::Deliver(decode_utf8(bytes))
        } else {
            RelayActionModel::Fail(RelayError::NotUtf8)
        },
    )
}

/// The end of a call that failed with `error`.
pub open spec fn spec_fail(state: RelayModel, error: RelayError) -> (RelayModel, RelayActionModel) {
    (
        RelayModel {
            timeout_secs: state.timeout_secs,
            phase: RelayPhase::Done,
            received: state.received,
            more_follows: state.more_follows,
        },
        RelayActionModel::Fail(error),
    )
}

/// The rules of a relayed call: the state after `event` and what is to be
/// done then.
///
/// Before each read the clock is read, and the call fails once the time
/// allowed has passed. A read that gives nothing before any full chunk has
/// come means that the response has not begun: the call goes on waiting. A
/// full chunk means that more follows. A chunk that is not full ends the
/// response, and so does a read that gives nothing after a full chunk. A
/// read that only waited ends nothing: the clock is read again.
pub open spec fn spec_relay(state: RelayModel, event: RelayEventModel) -> (
    RelayModel,
    RelayActionModel,
) {
    match (state.phase, event) {
        (RelayPhase::Sending, RelayEventModel::Sent) => (
            RelayModel { phase: RelayPhase::Timing, ..state },
            RelayActionModel::CheckClock,
        ),
        (RelayPhase::Sending, RelayEventModel::ConnectFailed) => spec_fail(
            state,
            RelayError::ConnectFailed,
        ),
        (RelayPhase::Sending, RelayEventModel::WriteFailed) => spec_fail(
            state,
            RelayError::WriteFailed,
        ),
        (RelayPhase::Timing, RelayEventModel::Clock { elapsed_nanos }) => {
            if spec_is_late(state.timeout_secs, elapsed_nanos) {
                spec_fail(state, RelayError::TimedOut)
            } else {
                (RelayModel { phase: RelayPhase::Reading, ..state }, RelayActionModel::Read)
            }
        },
        (RelayPhase::Timing, RelayEventModel::ClockFailed) => spec_fail(
            state,
            RelayError::ClockFailed,
        ),
        (RelayPhase::Reading, RelayEventModel::Chunk(bytes)) => {
            if bytes.len() == 0 {
                if state.more_follows {
                    spec_complete(state, state.received)
                } else {
                    (
                        RelayModel { phase: RelayPhase::Timing, ..state },
                        RelayActionModel::CheckClock,
                    )
                }
            } else if bytes.len() >= CHUNK_SIZE {
                (
                    RelayModel {
                        phase: RelayPhase::Timing,
                        received: state.received + bytes,
                        more_follows: true,
                        ..state
                    },
                    RelayActionModel::CheckClock,
                )
            } else {
                spec_complete(state, state.received + bytes)
            }
        },
        (RelayPhase::Reading, RelayEventModel::Waited) => (
            RelayModel { phase: RelayPhase::Timing, ..state },
            RelayActionModel::CheckClock,
        ),
        (RelayPhase::Reading, RelayEventModel::ReadFailed) => spec_fail(
            state,
            RelayError::ReadFailed,
        ),
        _ => spec_fail(state, RelayError::OutOfTurn),
    }
}

/// One call that is relayed to the broker socket.
pub struct RelayCall {
    timeout_secs: u64,
    phase: RelayPhase,
    received: Vec<u8>,
    more_follows: bool,
}

impl View for RelayCall {
    type V = RelayModel;

    closed spec fn view(&self) -> RelayModel {
        RelayModel {
            timeout_secs: self.timeout_secs,
            phase: self.phase,
            received: self.received@,
            more_follows: self.more_follows,
        }
    }
}

impl RelayCall {
    /// Begins the relay of `request`, for whose response `timeout_secs`
    /// seconds are allowed. The bytes handed out are to be written to a
    /// fresh connection to the broker socket, and flushed.
    pub fn begin(request: &ClientRequest, timeout_secs: u64) -> (begun: (RelayCall, Vec<u8>))
        ensures
            begun.0@ == (RelayModel {
                timeout_secs,
                phase: RelayPhase::Sending,
                received: Seq::<u8>::empty(),
                more_follows: false,
            }),
            begun.1@ == spec_encode(request@),
    {
        (
            RelayCall {
                timeout_secs,
                phase: RelayPhase::Sending,
                received: Vec::new(),
                more_follows: false,
            },
            encode_request(request),
        )
    }

    /// Where the call stands.
    pub fn phase(&self) -> (phase: RelayPhase)
        ensures
            phase == self@.phase,
    {
        self.phase
    }

    /// Whether the time `elapsed_nanos` is beyond what the call allows.
    pub fn is_late(&self, elapsed_nanos: u128) -> (late: bool)
        ensures
            late == spec_is_late(self@.timeout_secs, elapsed_nanos),
    {
        let allowed: u128 = (self.timeout_secs as u128) * 1_000_000_000;
        elapsed_nanos > allowed
    }

    fn fail(&mut self, error: RelayError) -> (action: RelayAction)
        ensures
            (final(self)@, action@) == spec_fail(old(self)@, error),
    {
        self.phase = RelayPhase::Done;
        RelayAction::Fail(error)
    }

    fn complete(&mut self) -> (action: RelayAction)
        ensures
            (final(self)@, action@) == spec_complete(old(self)@, old(self)@.received),
    {
        let mut bytes: Vec<u8> = Vec::new();
        core::mem::swap(&mut self.received, &mut bytes);
        self.phase = RelayPhase::Done;
        match text_of(bytes) {
            Some(text) => RelayAction::Deliver(text),
            None => RelayAction::Fail(RelayError::NotUtf8),
        }
    }

    /// Takes in what happened and says what is to be done next.
    pub fn step(&mut self, event: RelayEvent) -> (action: RelayAction)
        ensures
            (final(self)@, action@) == spec_relay(old(self)@, event@),
    {
        match (self.phase, event) {
            (RelayPhase::Sending, RelayEvent::Sent) => {
                self.phase = RelayPhase::Timing;
                RelayAction::CheckClock
            },
            (RelayPhase::Sending, RelayEvent::ConnectFailed) => self.fail(
                RelayError::ConnectFailed,
            ),
            (RelayPhase::Sending, RelayEvent::WriteFailed) => self.fail(RelayError::WriteFailed),
            (RelayPhase::Timing, RelayEvent::Clock { elapsed_nanos }) => {
                if self.is_late(elapsed_nanos) {
                    self.fail(RelayError::TimedOut)
                } else {
                    self.phase = RelayPhase::Reading;
                    RelayAction::Read
                }
            },
            (RelayPhase::Timing, RelayEvent::ClockFailed) => self.fail(RelayError::ClockFailed),
            (RelayPhase::Reading, RelayEvent::Chunk(bytes)) => {
                if bytes.len() == 0 {
                    if self.more_follows {
                        self.complete()
                    } else {
                        self.phase = RelayPhase::Timing;
                        RelayAction::CheckClock
                    }
                } else if bytes.len() >= CHUNK_SIZE {
                    self.received.extend_from_slice(bytes.as_slice());
                    assert(self.received@ =~= old(self)@.received + bytes@);
                    self.more_follows = true;
                    self.phase = RelayPhase::Timing;
                    RelayAction::CheckClock
                } else {
                    self.received.extend_from_slice(bytes.as_slice());
                    assert(self.received@ =~= old(self)@.received + bytes@);
                    self.complete()
                }
            },
            (RelayPhase::Reading, RelayEvent::Waited) => {
                self.phase = RelayPhase::Timing;
                RelayAction::CheckClock
            },
            (RelayPhase::Reading, RelayEvent::ReadFailed) => self.fail(RelayError::ReadFailed),
            _ => self.fail(RelayError::OutOfTurn),
        }
    }
}

/// The status with which a relayed call that failed is answered on the
/// bus.
pub fn relay_status(error: RelayError) -> (status: dbus::MethodErr)
    ensures
        status_name(status) == FAILED_STATUS@,
        status_message(status) == error.spec_message(),
{
    failed_status(error.message())
}

/// The answer that the end of a relayed call gives to the caller on the
/// bus: the result that was delivered, or the status of the failure.
/// `None` where the call is not over.
pub fn relay_answer(action: RelayAction) -> (answer: Option<Result<String, dbus::MethodErr>>)
    ensures
        match action {
            RelayAction::Deliver(result) => answer == Some(
                Ok::<String, dbus::MethodErr>(result),
            ),
            RelayAction::Fail(error) => answer matches Some(Err(status)) && status_name(status)
                == FAILED_STATUS@ && status_message(status) == error.spec_message(),
            _ => answer is None,
        },
{
    match action {
        RelayAction::Deliver(result) => Some(Ok(result)),
        RelayAction::Fail(error) => Some(Err(relay_status(error))),
        _ => None,
    }
}

/// What is done in a call that starts in `state` and sees `events`, one
/// action for each event.
pub open spec fn spec_relay_run(state: RelayModel, events: Seq<RelayEventModel>) -> Seq<
    RelayActionModel,
>
    decreases events.len(),
{
    if events.len() == 0 {
        seq![]
    } else {
        let (next, action) = spec_relay(state, events[0]);
        seq![action] + spec_relay_run(next, events.drop_first())
    }
}

/// The state of a call after it has seen `events`.
pub open spec fn spec_relay_state(state: RelayModel, events: Seq<RelayEventModel>) -> RelayModel
    decreases events.len(),
{
    if events.len() == 0 {
        state
    } else {
        spec_relay_state(spec_relay(state, events[0]).0, events.drop_first())
    }
}

/// The state of a call whose request is about to be sent.
pub open spec fn spec_begun(timeout_secs: u64) -> RelayModel {
    RelayModel {
        timeout_secs,
        phase: RelayPhase::Sending,
        received: Seq::<u8>::empty(),
        more_follows: false,
    }
}

/// What a peer that stays silent makes the driver report: each time the
/// clock was read, at one of `times`, the read that followed gave nothing.
pub open spec fn spec_silence(times: Seq<u128>) -> Seq<RelayEventModel>
    decreases times.len(),
{
    if times.len() == 0 {
        seq![]
    } else {
        seq![
            RelayEventModel::Clock { elapsed_nanos: times[0] },
            RelayEventModel::Chunk(Seq::<u8>::empty()),
        ] + spec_silence(times.drop_first())
    }
}

/// A response that is shorter than a chunk and comes within the time
/// allowed is the result of the call, byte for byte.
pub proof fn law_short_response_is_delivered(
    timeout_secs: u64,
    elapsed_nanos: u128,
    response: Seq<char>,
)
    requires
        !spec_is_late(timeout_secs, elapsed_nanos),
        0 < encode_utf8(response).len() < CHUNK_SIZE,
    ensures
        spec_relay_run(
            spec_begun(timeout_secs),
            seq![
                RelayEventModel::Sent,
                RelayEventModel::Clock { elapsed_nanos },
                RelayEventModel::Chunk(encode_utf8(response)),
            ],
        ) == seq![
            RelayActionModel::CheckClock,
            RelayActionModel::Read,
            RelayActionModel::Deliver(response),
        ],
{
    let bytes = encode_utf8(response);
    let events = seq![
        RelayEventModel::Sent,
        RelayEventModel::Clock { elapsed_nanos },
        RelayEventModel::Chunk(bytes),
    ];
    let s0 = spec_begun(timeout_secs);
    let (s1, a1) = spec_relay(s0, events[0]);
    let (s2, a2) = spec_relay(s1, events[1]);
    let (s3, a3) = spec_relay(s2, events[2]);
    vstd::utf8::encode_utf8_valid_utf8(response);
    vstd::utf8::encode_utf8_decode_utf8(response);
    assert(s2.received + bytes =~= bytes);
    let e1 = events.drop_first();
    let e2 = e1.drop_first();
    let e3 = e2.drop_first();
    assert(e3.len() == 0);
    assert(spec_relay_run(s3, e3) =~= seq![]);
    assert(spec_relay_run(s2, e2) =~= seq![a3]);
    assert(spec_relay_run(s1, e1) =~= seq![a2, a3]);
    assert(spec_relay_run(s0, events) =~= seq![a1, a2, a3]);
}

/// What is delivered is what was received, all of it and nothing else: a
/// result is delivered only on a chunk that is not full, and its bytes are
/// the bytes of all chunks of the call.
pub proof fn law_only_text_is_delivered(state: RelayModel, event: RelayEventModel)
    ensures
        spec_relay(state, event).1 matches RelayActionModel::Deliver(text) ==> {
            &&& state.phase == RelayPhase::Reading
            &&& event matches RelayEventModel::Chunk(bytes)
            &&& bytes.len() < CHUNK_SIZE
            &&& encode_utf8(text) == state.received + bytes
        },
{
    match (state.phase, event) {
        (RelayPhase::Reading, RelayEventModel::Chunk(bytes)) => {
            if valid_utf8(state.received + bytes) {
                vstd::utf8::decode_utf8_encode_utf8(state.received + bytes);
            }
            if bytes.len() == 0 {
                assert(state.received + bytes =~= state.received);
            }
        },
        _ => {},
    }
}

/// A call is over exactly when its answer is handed out: the connection is
/// to be released with every result and with every error, and never before.
pub proof fn law_call_ends_with_its_answer(state: RelayModel, event: RelayEventModel)
    ensures
        spec_relay(state, event).0.phase == RelayPhase::Done <==> (spec_relay(state, event).1
            is Deliver || spec_relay(state, event).1 is Fail),
        state.phase == RelayPhase::Done ==> spec_relay(state, event).1 == RelayActionModel::Fail(
            RelayError::OutOfTurn,
        ),
        spec_relay(state, event).0.timeout_secs == state.timeout_secs,
{
}

/// The call fails for lateness exactly when the clock is read beyond the
/// time allowed: never before, and always then.
pub proof fn law_deadline_is_kept(state: RelayModel, elapsed_nanos: u128)
    requires
        state.phase == RelayPhase::Timing,
    ensures
        spec_relay(state, RelayEventModel::Clock { elapsed_nanos }).1 == RelayActionModel::Fail(
            RelayError::TimedOut,
        ) <==> elapsed_nanos > state.timeout_secs * 1_000_000_000,
        elapsed_nanos <= state.timeout_secs * 1_000_000_000 ==> spec_relay(
            state,
            RelayEventModel::Clock { elapsed_nanos },
        ).1 == RelayActionModel::Read,
{
}

/// While the peer stays silent the call waits and nothing changes.
pub proof fn lemma_silence_changes_nothing(state: RelayModel, times: Seq<u128>)
    requires
        state.phase == RelayPhase::Timing,
        !state.more_follows,
        forall|i: int|
            0 <= i < times.len() ==> !spec_is_late(state.timeout_secs, #[trigger] times[i]),
    ensures
        spec_relay_state(state, spec_silence(times)) == state,
    decreases times.len(),
{
    if times.len() > 0 {
        let events = spec_silence(times);
        let rest = spec_silence(times.drop_first());
        let (s1, a1) = spec_relay(state, events[0]);
        let (s2, a2) = spec_relay(s1, events[1]);
        assert(!spec_is_late(state.timeout_secs, times[0]));
        assert(s2 == state);
        assert(events.drop_first().drop_first() =~= rest);
        assert forall|i: int| 0 <= i < times.drop_first().len() implies !spec_is_late(
            state.timeout_secs,
            #[trigger] times.drop_first()[i],
        ) by {
            assert(times.drop_first()[i] == times[i + 1]);
        }
        lemma_silence_changes_nothing(state, times.drop_first());
        assert(spec_relay_state(s1, events.drop_first()) == spec_relay_state(
            s2,
            events.drop_first().drop_first(),
        ));
    }
}

/// A read that only waited changes nothing but the phase: the clock is read
/// next, whatever has come so far, and so the time allowed is kept even
/// where the peer holds its end open and sends nothing more.
pub proof fn law_waiting_leads_to_the_clock(state: RelayModel, late: u128)
    requires
        state.phase == RelayPhase::Reading,
        spec_is_late(state.timeout_secs, late),
    ensures
        ({
            let waited = spec_relay(state, RelayEventModel::Waited);
            &&& waited.1 == RelayActionModel::CheckClock
            &&& waited.0 == (RelayModel { phase: RelayPhase::Timing, ..state })
            &&& spec_relay(waited.0, RelayEventModel::Clock { elapsed_nanos: late }).1
                == RelayActionModel::Fail(RelayError::TimedOut)
        }),
{
}

/// The state after two runs of events, one behind the other.
pub proof fn lemma_relay_state_concat(
    state: RelayModel,
    first: Seq<RelayEventModel>,
    second: Seq<RelayEventModel>,
)
    ensures
        spec_relay_state(state, first + second) == spec_relay_state(
            spec_relay_state(state, first),
            second,
        ),
    decreases first.len(),
{
    if first.len() == 0 {
        assert(first + second =~= second);
    } else {
        assert((first + second).drop_first() =~= first.drop_first() + second);
        lemma_relay_state_concat(spec_relay(state, first[0]).0, first.drop_first(), second);
    }
}

/// A peer that never responds does not hold the call for ever. However
/// often the clock was read within the time allowed, each time followed by
/// a read that gave nothing, the first reading of the clock beyond the time
/// allowed ends the call with [`RelayError::TimedOut`].
pub proof fn law_silent_peer_times_out(timeout_secs: u64, times: Seq<u128>, late: u128)
    requires
        forall|i: int| 0 <= i < times.len() ==> !spec_is_late(timeout_secs, #[trigger] times[i]),
        spec_is_late(timeout_secs, late),
    ensures
        ({
            let waiting = spec_relay_state(
                spec_begun(timeout_secs),
                seq![RelayEventModel::Sent] + spec_silence(times),
            );
            &&& waiting.phase == RelayPhase::Timing
            &&& spec_relay(waiting, RelayEventModel::Clock { elapsed_nanos: late }).1
                == RelayActionModel::Fail(RelayError::TimedOut)
            &&& spec_relay(waiting, RelayEventModel::Clock { elapsed_nanos: late }).0.phase
                == RelayPhase::Done
        }),
{
    let s0 = spec_begun(timeout_secs);
    let s1 = spec_relay(s0, RelayEventModel::Sent).0;
    let first = seq![RelayEventModel::Sent];
    assert(first.drop_first() =~= Seq::<RelayEventModel>::empty());
    assert(spec_relay_state(s1, first.drop_first()) == s1);
    assert(spec_relay_state(s0, first) == s1);
    lemma_relay_state_concat(s0, first, spec_silence(times));
    lemma_silence_changes_nothing(s1, times);
}

} // verus!
