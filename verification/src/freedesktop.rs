//! Who is calling: the user behind a call that came over the bus.
//!
//! On the bus every call names its sender, and the bus daemon knows the
//! user that each sender belongs to. The user is asked for anew with every
//! call. A call whose user cannot be told is declined before the broker
//! hears of it: no user id stands in for one that is not known.

use crate::broker_proto::Operation;
use crate::bus::{failed_status, status_message, status_name, FAILED_STATUS};
use crate::himmelblau_broker::{invoke, spec_call, HimmelblauBroker, Invocation};
use vstd::prelude::*;

verus! {

/// The bus name of the bus daemon.
pub const BUS_DAEMON_NAME: &'static str = "org.freedesktop.DBus";

/// The object path at which the bus daemon answers.
pub const BUS_DAEMON_PATH: &'static str = "/org/freedesktop/DBus";

/// The interface of the bus daemon.
pub const BUS_DAEMON_INTERFACE: &'static str = "org.freedesktop.DBus";

/// The method of the bus daemon that tells the user of a connection.
pub const UNIX_USER_METHOD: &'static str = "GetConnectionUnixUser";

/// The time allowed for the bus daemon's answer, in milliseconds.
pub const BUS_DAEMON_TIMEOUT_MILLIS: u64 = 5000;

/// What is known of the caller of a bus call.
#[derive(Clone, Copy, PartialEq, Eq, Structural, Debug)]
pub enum Caller {
    /// The bus daemon gave this user id for the call's sender.
    Known { uid: u32 },
    /// The call names no sender.
    NoSender,
    /// The bus daemon could not be asked, or gave no user.
    LookupFailed,
}

/// Why a call was declined before the broker heard of it.
#[derive(Clone, Copy, PartialEq, Eq, Structural, Debug)]
pub enum Declined {
    /// The call names no sender.
    NoSender,
    /// The user of the call's sender is not known.
    UnknownCaller,
}

impl Declined {
    /// The words in which the caller is told.
    pub open spec fn spec_message(self) -> Seq<char> {
        match self {
            Declined::NoSender => "the call names no sender"@,
            Declined::UnknownCaller => "the user of the caller could not be determined"@,
        }
    }

    /// The words in which the caller is told.
    pub fn message(self) -> (message: &'static str)
        ensures
            message@ == self.spec_message(),
    {
        match self {
            Declined::NoSender => "the call names no sender",
            Declined::UnknownCaller => "the user of the caller could not be determined",
        }
    }
}

/// The user for whom a call may be made, or why it is declined.
pub open spec fn spec_authorize(caller: Caller) -> Result<u32, Declined> {
    match caller {
        Caller::Known { uid } => Ok(uid),
        Caller::NoSender => Err(Declined::NoSender),
        Caller::LookupFailed => Err(Declined::UnknownCaller),
    }
}

/// Decides for whom a call is made. Only a user id that the bus daemon
/// gave is ever handed out.
pub fn authorize(caller: Caller) -> (authorized: Result<u32, Declined>)
    ensures
        authorized == spec_authorize(caller),
{
    match caller {
        Caller::Known { uid } => Ok(uid),
        Caller::NoSender => Err(Declined::NoSender),
        Caller::LookupFailed => Err(Declined::UnknownCaller),
    }
}

/// What became of a call that came over the bus.
pub enum BusCallOutcome<F> {
    /// The broker served the call and gave this result.
    Served(String),
    /// The broker was asked and could not serve the call.
    Failed(F),
    /// The broker was not asked.
    Declined(Declined),
}

/// Serves one call of a privileged operation that came over the bus.
///
/// Where the caller's user is known, the broker is asked once, for that
/// user, and its answer is the outcome. Where it is not, the call is
/// declined and the broker is left as it was.
pub fn serve_bus_call<T: HimmelblauBroker>(
    broker: &mut T,
    caller: Caller,
    operation: Operation,
    protocol_version: String,
    correlation_id: String,
    request_json: String,
) -> (outcome: BusCallOutcome<T::Failure>)
    ensures
        match spec_authorize(caller) {
            Ok(uid) => {
                let call = spec_call(
                    operation,
                    protocol_version@,
                    correlation_id@,
                    request_json@,
                    uid,
                );
                match outcome {
                    BusCallOutcome::Served(result) => old(broker).may_answer(
                        call,
                        Ok(result),
                        final(broker),
                    ),
                    BusCallOutcome::Failed(failure) => old(broker).may_answer(
                        call,
                        Err(failure),
                        final(broker),
                    ),
                    BusCallOutcome::Declined(_) => false,
                }
            },
            Err(reason) => {
                &&& outcome matches BusCallOutcome::Declined(r)
                &&& r == reason
                &&& *final(broker) == *old(broker)
            },
        },
{
    match authorize(caller) {
        Ok(uid) => {
            let call = Invocation {
                operation,
                protocol_version,
                correlation_id,
                request_json,
                uid,
            };
            match invoke(broker, call) {
                Ok(result) => BusCallOutcome::Served(result),
                Err(failure) => BusCallOutcome::Failed(failure),
            }
        },
        Err(reason) => BusCallOutcome::Declined(reason),
    }
}

/// The status with which a declined call is answered on the bus.
pub fn declined_status(reason: Declined) -> (status: dbus::MethodErr)
    ensures
        status_name(status) == FAILED_STATUS@,
        status_message(status) == reason.spec_message(),
{
    failed_status(reason.message())
}

} // verus!
