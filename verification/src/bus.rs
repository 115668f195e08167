//! The message bus as this crate sees it: the rules for the names it hands
//! to the bus library, and the bus library's own types and calls.
//!
//! The bus library panics when it is handed a name that breaks the rules of
//! the bus, so every call that takes a name asks for a well-formed one.
//!
//! The bus library shows nothing of what an interface or a handle holds. To
//! speak of it all the same, an interface that is being built travels with
//! a record of its methods ([`InterfaceDraft`]), and the handle of a
//! registered interface with its place in the table
//! ([`RegisteredInterface`]). Both are made and changed in this module
//! only, by the calls of the bus library themselves.

use crate::broker_proto::Operation;
use crate::device_broker::{
    describe_device_broker, dispatch_device, spec_device_members, DeviceBroker, DeviceOperation,
};
use crate::session_broker::{
    describe_session_broker, dispatch_session, spec_session_members, SessionBroker,
};
use vstd::prelude::*;

verus! {

/// The declined-or-failed status of a bus call: an error name and a message.
#[verifier::external_type_specification]
#[verifier::external_body]
pub struct ExMethodErr(dbus::MethodErr);

/// The table of object paths and interfaces that a bus service answers for.
#[verifier::external_type_specification]
#[verifier::external_body]
pub struct ExCrossroads(dbus_crossroads::Crossroads);

/// The handle of one registered interface.
#[verifier::external_type_specification]
#[verifier::external_body]
#[verifier::reject_recursive_types(T)]
pub struct ExIfaceToken<T: Send + 'static>(dbus_crossroads::IfaceToken<T>);

/// An interface while its methods are being added.
#[verifier::external_type_specification]
#[verifier::external_body]
#[verifier::reject_recursive_types(T)]
pub struct ExIfaceBuilder<T: Send + 'static>(dbus_crossroads::IfaceBuilder<T>);

/// A character that may stand in an element of a bus name.
pub open spec fn is_name_char(c: char) -> bool {
    ('A' <= c && c <= 'Z') || ('a' <= c && c <= 'z') || ('0' <= c && c <= '9') || c == '_'
}

/// A character that may begin an element of a bus name.
pub open spec fn is_name_start(c: char) -> bool {
    is_name_char(c) && !('0' <= c && c <= '9')
}

/// A well-formed member (method) name: one to 255 letters, digits and
/// underscores, not beginning with a digit.
pub open spec fn is_member_name(name: Seq<char>) -> bool {
    &&& 1 <= name.len() <= 255
    &&& is_name_start(name[0])
    &&& forall|i: int| 0 <= i < name.len() ==> is_name_char(#[trigger] name[i])
}

/// A well-formed interface name: at most 255 characters, two or more
/// elements separated by periods, each element a non-empty run of letters,
/// digits and underscores that does not begin with a digit.
pub open spec fn is_interface_name(name: Seq<char>) -> bool {
    &&& 1 <= name.len() <= 255
    &&& exists|i: int| 0 <= i < name.len() && #[trigger] name[i] == '.'
    &&& forall|i: int| 0 <= i < name.len() ==> #[trigger] name[i] == '.' || is_name_char(name[i])
    &&& is_name_start(name[0])
    &&& forall|i: int|
        0 <= i < name.len() && #[trigger] name[i] == '.' ==> i + 1 < name.len() && is_name_start(
            name[i + 1],
        )
}

/// A character that may stand in an element of a bus name that a service
/// claims: as in other names, and the hyphen.
pub open spec fn is_bus_name_char(c: char) -> bool {
    is_name_char(c) || c == '-'
}

/// A well-formed bus name of a service: at most 255 characters, two or
/// more elements separated by periods, each element a non-empty run of
/// letters, digits, underscores and hyphens that does not begin with a
/// digit.
pub open spec fn is_bus_name(name: Seq<char>) -> bool {
    &&& 1 <= name.len() <= 255
    &&& exists|i: int| 0 <= i < name.len() && #[trigger] name[i] == '.'
    &&& forall|i: int|
        0 <= i < name.len() ==> #[trigger] name[i] == '.' || is_bus_name_char(name[i])
    &&& name[0] != '.' && !('0' <= name[0] && name[0] <= '9')
    &&& forall|i: int|
        0 <= i < name.len() && #[trigger] name[i] == '.' ==> i + 1 < name.len() && name[i + 1]
            != '.' && !('0' <= name[i + 1] && name[i + 1] <= '9')
}

/// A well-formed object path: a slash followed by elements of letters,
/// digits and underscores that are separated by single slashes, with no
/// slash at the end; or the root path, a slash alone.
pub open spec fn is_object_path(path: Seq<char>) -> bool {
    &&& 1 <= path.len()
    &&& path[0] == '/'
    &&& forall|i: int| 0 <= i < path.len() ==> #[trigger] path[i] == '/' || is_name_char(path[i])
    &&& path.len() > 1 ==> forall|i: int|
        0 <= i < path.len() && #[trigger] path[i] == '/' ==> i + 1 < path.len() && path[i + 1]
            != '/'
}

/// What a bus method takes and gives back: the names of its arguments and
/// the names of its results, each in order.
pub struct MethodShape {
    pub inputs: Seq<Seq<char>>,
    pub outputs: Seq<Seq<char>>,
}

/// The shape of a method with these argument names and these result names.
pub open spec fn spec_shape(inputs: Seq<Seq<char>>, outputs: Seq<Seq<char>>) -> MethodShape {
    MethodShape { inputs, outputs }
}

/// The methods of an interface after one called `name` was added to
/// `members`: a method that is there already is kept as it is.
pub open spec fn spec_exposed(
    members: Map<Seq<char>, MethodShape>,
    name: Seq<char>,
    shape: MethodShape,
) -> Map<Seq<char>, MethodShape> {
    if members.contains_key(name) {
        members
    } else {
        members.insert(name, shape)
    }
}

/// The names of the interfaces that a table holds, in the order in which
/// they were registered.
pub uninterp spec fn registered_interfaces(table: dbus_crossroads::Crossroads) -> Seq<Seq<char>>;

/// The methods of the interfaces that a table holds, interface by
/// interface in the order in which they were registered: each method's name
/// with its shape.
pub uninterp spec fn registered_members(table: dbus_crossroads::Crossroads) -> Seq<
    Map<Seq<char>, MethodShape>,
>;

/// The object paths that a table answers for.
pub uninterp spec fn object_paths(table: dbus_crossroads::Crossroads) -> Set<Seq<char>>;

/// The interfaces that the object at `path` answers for, each by its place
/// among the registered interfaces.
pub uninterp spec fn path_interfaces(table: dbus_crossroads::Crossroads, path: Seq<char>) -> Set<
    int,
>;

/// An interface while its methods are being added, together with a record
/// of the methods that it holds. Only this module makes one, for an
/// interface that was just begun, and only its calls of the bus library
/// change the record.
#[verifier::reject_recursive_types(T)]
pub struct InterfaceDraft<'a, T: Send + 'static> {
    builder: &'a mut dbus_crossroads::IfaceBuilder<T>,
    members: Ghost<Map<Seq<char>, MethodShape>>,
}

impl<'a, T: Send + 'static> InterfaceDraft<'a, T> {
    /// The methods that the interface holds: each method's name with its
    /// shape.
    pub closed spec fn members(&self) -> Map<Seq<char>, MethodShape> {
        self.members@
    }

    /// The draft of an interface that was just begun and holds no method.
    fn begin(builder: &'a mut dbus_crossroads::IfaceBuilder<T>) -> (draft: Self)
        ensures
            draft.members() == Map::<Seq<char>, MethodShape>::empty(),
    {
        InterfaceDraft { builder, members: Ghost(Map::empty()) }
    }
}

/// The handle of an interface that was registered in a table, together with
/// the interface's place among the table's interfaces. Only this module
/// makes one, when it registers the interface.
#[verifier::reject_recursive_types(T)]
pub struct RegisteredInterface<T: Send + 'static> {
    token: dbus_crossroads::IfaceToken<T>,
    place: Ghost<int>,
}

impl<T: Send + 'static> RegisteredInterface<T> {
    /// The interface's place among the interfaces of its table.
    pub closed spec fn place(&self) -> int {
        self.place@
    }

    /// The handle as the bus library knows it.
    pub(crate) fn into_token(self) -> (token: dbus_crossroads::IfaceToken<T>) {
        self.token
    }
}

/// `Crossroads::new`: a table with the bus's standard interfaces and the
/// root path. Of what it holds only this is claimed: each of its
/// interfaces has its methods, so the two are counted alike.
#[verifier::external_body]
pub(crate) fn new_table() -> (table: dbus_crossroads::Crossroads)
    ensures
        registered_members(table).len() == registered_interfaces(table).len(),
{
    dbus_crossroads::Crossroads::new()
}

/// `Crossroads::insert`: puts `data` at `path`, answering there for the
/// registered interface. The path is then among the table's paths and its
/// object answers for that interface; the interfaces and their methods are
/// as before. The call panics on a path that is no object path and on a
/// handle whose place lies beyond the table's interfaces, which are left
/// out.
#[verifier::external_body]
pub(crate) fn insert_object<T: Send + 'static>(
    table: &mut dbus_crossroads::Crossroads,
    path: &'static str,
    registered: RegisteredInterface<T>,
    data: T,
)
    requires
        is_object_path(path@),
        0 <= registered.place() < registered_interfaces(*old(table)).len(),
    ensures
        object_paths(*final(table)) == object_paths(*old(table)).insert(path@),
        path_interfaces(*final(table), path@).contains(registered.place()),
        registered_interfaces(*final(table)) == registered_interfaces(*old(table)),
        registered_members(*final(table)) == registered_members(*old(table)),
{
    table.insert(path, &[registered.token], data);
}

/// `IfaceBuilder::method`: unless the interface has a method called `name`
/// already, adds one with the argument names `inputs` and the result name
/// `outputs` that takes a session id and a request document, gives back one
/// result, and answers by asking the object's broker for `operation`. The
/// call panics on a name that is no member name, which is left out. An
/// operation is exposed under its own name only.
#[verifier::external_body]
pub(crate) fn expose_device_method<T: DeviceBroker + Send + 'static>(
    draft: &mut InterfaceDraft<T>,
    name: &'static str,
    inputs: (&'static str, &'static str),
    outputs: (&'static str,),
    operation: DeviceOperation,
)
    requires
        is_member_name(name@),
        name@ == operation.spec_member_name(),
    ensures
        final(draft).members() == spec_exposed(
            old(draft).members(),
            name@,
            spec_shape(seq![inputs.0@, inputs.1@], seq![outputs.0@]),
        ),
{
    draft.builder.method(
        name,
        inputs,
        outputs,
        move |_, broker: &mut T, (session_id, request_json): (String, String)| {
            dispatch_device(broker, operation, session_id, request_json).map(|x| (x,))
        },
    );
}

/// `Crossroads::register`: begins an interface called `name`, has
/// `describe_device_broker` add its methods, and registers it. The table
/// then holds one interface more, the last, under that name; its methods
/// are those that `describe_device_broker` is proved to leave in an
/// interface that held none; the handle has the interface's place; the
/// table's paths are as before. The call panics on a name that is no
/// interface name, which is left out.
#[verifier::external_body]
pub(crate) fn register_device_interface<T: DeviceBroker + Send + 'static>(
    table: &mut dbus_crossroads::Crossroads,
    name: &'static str,
) -> (registered: RegisteredInterface<T>)
    requires
        is_interface_name(name@),
    ensures
        registered_interfaces(*final(table)) == registered_interfaces(*old(table)).push(name@),
        registered_members(*final(table)) == registered_members(*old(table)).push(
            spec_device_members(),
        ),
        object_paths(*final(table)) == object_paths(*old(table)),
        registered.place() == registered_interfaces(*old(table)).len(),
{
    let token = table.register(
        name,
        |builder| describe_device_broker(&mut InterfaceDraft::begin(builder)),
    );
    RegisteredInterface { token, place: Ghost(arbitrary()) }
}

/// `IfaceBuilder::method`: unless the interface has a method called `name`
/// already, adds one with the argument names `inputs` and the result name
/// `outputs` that takes a protocol version, a correlation id and a request
/// document, gives back one result, and answers by asking the object's
/// broker for `operation`. The call panics on a name that is no member
/// name, which is left out. An operation is exposed under its own name
/// only.
#[verifier::external_body]
pub(crate) fn expose_session_method<T: SessionBroker + Send + 'static>(
    draft: &mut InterfaceDraft<T>,
    name: &'static str,
    inputs: (&'static str, &'static str, &'static str),
    outputs: (&'static str,),
    operation: Operation,
)
    requires
        is_member_name(name@),
        name@ == operation.spec_wire_name(),
    ensures
        final(draft).members() == spec_exposed(
            old(draft).members(),
            name@,
            spec_shape(seq![inputs.0@, inputs.1@, inputs.2@], seq![outputs.0@]),
        ),
{
    draft.builder.method(
        name,
        inputs,
        outputs,
        move |_, broker: &mut T, (version, id, request): (String, String, String)| {
            dispatch_session(broker, operation, version, id, request).map(|x| (x,))
        },
    );
}

/// `Crossroads::register`: begins an interface called `name`, has
/// `describe_session_broker` add its methods, and registers it. The table
/// then holds one interface more, the last, under that name; its methods
/// are those that `describe_session_broker` is proved to leave in an
/// interface that held none; the handle has the interface's place; the
/// table's paths are as before. The call panics on a name that is no
/// interface name, which is left out.
#[verifier::external_body]
pub(crate) fn register_session_interface<T: SessionBroker + Send + 'static>(
    table: &mut dbus_crossroads::Crossroads,
    name: &'static str,
) -> (registered: RegisteredInterface<T>)
    requires
        is_interface_name(name@),
    ensures
        registered_interfaces(*final(table)) == registered_interfaces(*old(table)).push(name@),
        registered_members(*final(table)) == registered_members(*old(table)).push(
            spec_session_members(),
        ),
        object_paths(*final(table)) == object_paths(*old(table)),
        registered.place() == registered_interfaces(*old(table)).len(),
{
    let token = table.register(
        name,
        |builder| describe_session_broker(&mut InterfaceDraft::begin(builder)),
    );
    RegisteredInterface { token, place: Ghost(arbitrary()) }
}

/// The error name of a call that failed.
pub const FAILED_STATUS: &'static str = "org.freedesktop.DBus.Error.Failed";

/// The error name that a status carries.
pub uninterp spec fn status_name(status: dbus::MethodErr) -> Seq<char>;

/// The message that a status carries.
pub uninterp spec fn status_message(status: dbus::MethodErr) -> Seq<char>;

/// `MethodErr::failed`: the status of a call that failed, with `message`
/// to say why. Its error name is [`FAILED_STATUS`].
#[verifier::external_body]
pub(crate) fn failed_status(message: &str) -> (status: dbus::MethodErr)
    ensures
        status_name(status) == FAILED_STATUS@,
        status_message(status) == message@,
{
    dbus::MethodErr::failed(message)
}

/// `MethodErr::errorname`: the error name that the status carries.
#[verifier::external_body]
fn status_name_of(status: &dbus::MethodErr) -> (name: String)
    ensures
        name@ == status_name(*status),
{
    status.errorname().to_string()
}

/// `MethodErr::description`: the message that the status carries.
#[verifier::external_body]
fn status_message_of(status: &dbus::MethodErr) -> (message: &str)
    ensures
        message@ == status_message(*status),
{
    status.description()
}

/// The error name and the message of a status.
pub fn status_parts(status: &dbus::MethodErr) -> (parts: (String, String))
    ensures
        parts.0@ == status_name(*status),
        parts.1@ == status_message(*status),
{
    let name = status_name_of(status);
    let message = status_message_of(status).to_owned();
    (name, message)
}

} // verus!
