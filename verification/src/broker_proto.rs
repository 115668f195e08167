//! The request envelope that travels over the broker socket.
//!
//! One message is one request: the name of an operation together with three
//! strings (protocol version, correlation id and the request document, which
//! this crate never looks into).

use vstd::prelude::*;

verus! {

/// The operations an identity broker offers to its clients.
#[derive(Clone, Copy, PartialEq, Eq, Structural, Debug)]
pub enum Operation {
    AcquireTokenInteractively,
    AcquireTokenSilently,
    GetAccounts,
    RemoveAccount,
    AcquirePrtSsoCookie,
    GenerateSignedHttpRequest,
    CancelInteractiveFlow,
    GetLinuxBrokerVersion,
}

impl Operation {
    /// The name of the operation on the wire and on the bus.
    pub open spec fn spec_wire_name(self) -> Seq<char> {
        match self {
            Operation::AcquireTokenInteractively => "acquireTokenInteractively"@,
            Operation::AcquireTokenSilently => "acquireTokenSilently"@,
            Operation::GetAccounts => "getAccounts"@,
            Operation::RemoveAccount => "removeAccount"@,
            Operation::AcquirePrtSsoCookie => "acquirePrtSsoCookie"@,
            Operation::GenerateSignedHttpRequest => "generateSignedHttpRequest"@,
            Operation::CancelInteractiveFlow => "cancelInteractiveFlow"@,
            Operation::GetLinuxBrokerVersion => "getLinuxBrokerVersion"@,
        }
    }

    /// All operations, in the order in which they are declared.
    pub open spec fn spec_all() -> Seq<Operation> {
        seq![
            Operation::AcquireTokenInteractively,
            Operation::AcquireTokenSilently,
            Operation::GetAccounts,
            Operation::RemoveAccount,
            Operation::AcquirePrtSsoCookie,
            Operation::GenerateSignedHttpRequest,
            Operation::CancelInteractiveFlow,
            Operation::GetLinuxBrokerVersion,
        ]
    }

    /// The name of the operation on the wire and on the bus.
    pub fn wire_name(self) -> (name: &'static str)
        ensures
            name@ == self.spec_wire_name(),
    {
        match self {
            Operation::AcquireTokenInteractively => "acquireTokenInteractively",
            Operation::AcquireTokenSilently => "acquireTokenSilently",
            Operation::GetAccounts => "getAccounts",
            Operation::RemoveAccount => "removeAccount",
            Operation::AcquirePrtSsoCookie => "acquirePrtSsoCookie",
            Operation::GenerateSignedHttpRequest => "generateSignedHttpRequest",
            Operation::CancelInteractiveFlow => "cancelInteractiveFlow",
            Operation::GetLinuxBrokerVersion => "getLinuxBrokerVersion",
        }
    }

    /// All operations, in the order in which they are declared.
    pub fn all() -> (operations: Vec<Operation>)
        ensures
            operations@ == Self::spec_all(),
    {
        let mut operations: Vec<Operation> = Vec::new();
        operations.push(Operation::AcquireTokenInteractively);
        operations.push(Operation::AcquireTokenSilently);
        operations.push(Operation::GetAccounts);
        operations.push(Operation::RemoveAccount);
        operations.push(Operation::AcquirePrtSsoCookie);
        operations.push(Operation::GenerateSignedHttpRequest);
        operations.push(Operation::CancelInteractiveFlow);
        operations.push(Operation::GetLinuxBrokerVersion);
        assert(operations@ =~= Self::spec_all());
        operations
    }

    /// Every operation is in the list, once.
    pub proof fn law_all_complete(operation: Operation)
        ensures
            exists|i: int|
                0 <= i < Self::spec_all().len() && #[trigger] Self::spec_all()[i] == operation,
            forall|i: int, j: int|
                0 <= i < j < Self::spec_all().len() ==> Self::spec_all()[i] != Self::spec_all()[j],
    {
        let all = Self::spec_all();
        assert(all[0] == Operation::AcquireTokenInteractively);
        assert(all[1] == Operation::AcquireTokenSilently);
        assert(all[2] == Operation::GetAccounts);
        assert(all[3] == Operation::RemoveAccount);
        assert(all[4] == Operation::AcquirePrtSsoCookie);
        assert(all[5] == Operation::GenerateSignedHttpRequest);
        assert(all[6] == Operation::CancelInteractiveFlow);
        assert(all[7] == Operation::GetLinuxBrokerVersion);
    }

    /// No two operations share a name.
    pub proof fn law_wire_names_distinct(a: Operation, b: Operation)
        ensures
            a.spec_wire_name() == b.spec_wire_name() <==> a == b,
    {
        if a != b {
            a.lemma_wire_name_text();
            b.lemma_wire_name_text();
        }
    }

    /// The length of an operation's name and its first letter: enough to
    /// tell any two names apart.
    proof fn lemma_wire_name_text(self)
        ensures
            self.spec_wire_name().len() == self.spec_wire_name_marks().0,
            self.spec_wire_name()[0] == self.spec_wire_name_marks().1,
    {
        match self {
            Operation::AcquireTokenInteractively => reveal_strlit("acquireTokenInteractively"),
            Operation::AcquireTokenSilently => reveal_strlit("acquireTokenSilently"),
            Operation::GetAccounts => reveal_strlit("getAccounts"),
            Operation::RemoveAccount => reveal_strlit("removeAccount"),
            Operation::AcquirePrtSsoCookie => reveal_strlit("acquirePrtSsoCookie"),
            Operation::GenerateSignedHttpRequest => reveal_strlit("generateSignedHttpRequest"),
            Operation::CancelInteractiveFlow => reveal_strlit("cancelInteractiveFlow"),
            Operation::GetLinuxBrokerVersion => reveal_strlit("getLinuxBrokerVersion"),
        }
    }

    spec fn spec_wire_name_marks(self) -> (nat, char) {
        match self {
            Operation::AcquireTokenInteractively => (25, 'a'),
            Operation::AcquireTokenSilently => (20, 'a'),
            Operation::GetAccounts => (11, 'g'),
            Operation::RemoveAccount => (13, 'r'),
            Operation::AcquirePrtSsoCookie => (19, 'a'),
            Operation::GenerateSignedHttpRequest => (25, 'g'),
            Operation::CancelInteractiveFlow => (21, 'c'),
            Operation::GetLinuxBrokerVersion => (21, 'g'),
        }
    }
}

/// What a request says: the mathematical content of a [`ClientRequest`].
pub struct RequestModel {
    pub operation: Operation,
    pub protocol_version: Seq<char>,
    pub correlation_id: Seq<char>,
    pub request_json: Seq<char>,
}

/// One request as it travels from a client to the broker. The variant names
/// the operation; its fields are the protocol version, the correlation id and
/// the request document.
#[allow(non_camel_case_types)]
#[derive(PartialEq, Eq, Debug)]
pub enum ClientRequest {
    acquireTokenInteractively(String, String, String),
    acquireTokenSilently(String, String, String),
    getAccounts(String, String, String),
    removeAccount(String, String, String),
    acquirePrtSsoCookie(String, String, String),
    generateSignedHttpRequest(String, String, String),
    cancelInteractiveFlow(String, String, String),
    getLinuxBrokerVersion(String, String, String),
}

impl View for ClientRequest {
    type V = RequestModel;

    open spec fn view(&self) -> RequestModel {
        match self {
            ClientRequest::acquireTokenInteractively(v, c, r) => RequestModel {
                operation: Operation::AcquireTokenInteractively,
                protocol_version: v@,
                correlation_id: c@,
                request_json: r@,
            },
            ClientRequest::acquireTokenSilently(v, c, r) => RequestModel {
                operation: Operation::AcquireTokenSilently,
                protocol_version: v@,
                correlation_id: c@,
                request_json: r@,
            },
            ClientRequest::getAccounts(v, c, r) => RequestModel {
                operation: Operation::GetAccounts,
                protocol_version: v@,
                correlation_id: c@,
                request_json: r@,
            },
            ClientRequest::removeAccount(v, c, r) => RequestModel {
                operation: Operation::RemoveAccount,
                protocol_version: v@,
                correlation_id: c@,
                request_json: r@,
            },
            ClientRequest::acquirePrtSsoCookie(v, c, r) => RequestModel {
                operation: Operation::AcquirePrtSsoCookie,
                protocol_version: v@,
                correlation_id: c@,
                request_json: r@,
            },
            ClientRequest::generateSignedHttpRequest(v, c, r) => RequestModel {
                operation: Operation::GenerateSignedHttpRequest,
                protocol_version: v@,
                correlation_id: c@,
                request_json: r@,
            },
            ClientRequest::cancelInteractiveFlow(v, c, r) => RequestModel {
                operation: Operation::CancelInteractiveFlow,
                protocol_version: v@,
                correlation_id: c@,
                request_json: r@,
            },
            ClientRequest::getLinuxBrokerVersion(v, c, r) => RequestModel {
                operation: Operation::GetLinuxBrokerVersion,
                protocol_version: v@,
                correlation_id: c@,
                request_json: r@,
            },
        }
    }
}

impl ClientRequest {
    /// The request for `operation` with the three given fields.
    pub fn new(
        operation: Operation,
        protocol_version: String,
        correlation_id: String,
        request_json: String,
    ) -> (request: ClientRequest)
        ensures
            request@ == (RequestModel {
                operation,
                protocol_version: protocol_version@,
                correlation_id: correlation_id@,
                request_json: request_json@,
            }),
    {
        match operation {
            Operation::AcquireTokenInteractively => ClientRequest::acquireTokenInteractively(
                protocol_version,
                correlation_id,
                request_json,
            ),
            Operation::AcquireTokenSilently => ClientRequest::acquireTokenSilently(
                protocol_version,
                correlation_id,
                request_json,
            ),
            Operation::GetAccounts => ClientRequest::getAccounts(
                protocol_version,
                correlation_id,
                request_json,
            ),
            Operation::RemoveAccount => ClientRequest::removeAccount(
                protocol_version,
                correlation_id,
                request_json,
            ),
            Operation::AcquirePrtSsoCookie => ClientRequest::acquirePrtSsoCookie(
                protocol_version,
                correlation_id,
                request_json,
            ),
            Operation::GenerateSignedHttpRequest => ClientRequest::generateSignedHttpRequest(
                protocol_version,
                correlation_id,
                request_json,
            ),
            Operation::CancelInteractiveFlow => ClientRequest::cancelInteractiveFlow(
                protocol_version,
                correlation_id,
                request_json,
            ),
            Operation::GetLinuxBrokerVersion => ClientRequest::getLinuxBrokerVersion(
                protocol_version,
                correlation_id,
                request_json,
            ),
        }
    }

    /// The operation this request asks for.
    pub fn operation(&self) -> (operation: Operation)
        ensures
            operation == self@.operation,
    {
        match self {
            ClientRequest::acquireTokenInteractively(..) => Operation::AcquireTokenInteractively,
            ClientRequest::acquireTokenSilently(..) => Operation::AcquireTokenSilently,
            ClientRequest::getAccounts(..) => Operation::GetAccounts,
            ClientRequest::removeAccount(..) => Operation::RemoveAccount,
            ClientRequest::acquirePrtSsoCookie(..) => Operation::AcquirePrtSsoCookie,
            ClientRequest::generateSignedHttpRequest(..) => Operation::GenerateSignedHttpRequest,
            ClientRequest::cancelInteractiveFlow(..) => Operation::CancelInteractiveFlow,
            ClientRequest::getLinuxBrokerVersion(..) => Operation::GetLinuxBrokerVersion,
        }
    }

    /// The three fields of the request, in the order protocol version,
    /// correlation id, request document.
    pub fn fields(&self) -> (fields: (&str, &str, &str))
        ensures
            fields.0@ == self@.protocol_version,
            fields.1@ == self@.correlation_id,
            fields.2@ == self@.request_json,
    {
        match self {
            ClientRequest::acquireTokenInteractively(v, c, r)
            | ClientRequest::acquireTokenSilently(v, c, r)
            | ClientRequest::getAccounts(v, c, r)
            | ClientRequest::removeAccount(v, c, r)
            | ClientRequest::acquirePrtSsoCookie(v, c, r)
            | ClientRequest::generateSignedHttpRequest(v, c, r)
            | ClientRequest::cancelInteractiveFlow(v, c, r)
            | ClientRequest::getLinuxBrokerVersion(v, c, r) => (v.as_str(), c.as_str(), r.as_str()),
        }
    }

    /// Takes the request apart into its operation and its three fields, in
    /// the order protocol version, correlation id, request document.
    pub fn into_parts(self) -> (parts: (Operation, String, String, String))
        ensures
            parts.0 == self@.operation,
            parts.1@ == self@.protocol_version,
            parts.2@ == self@.correlation_id,
            parts.3@ == self@.request_json,
    {
        let operation = self.operation();
        match self {
            ClientRequest::acquireTokenInteractively(v, c, r)
            | ClientRequest::acquireTokenSilently(v, c, r)
            | ClientRequest::getAccounts(v, c, r)
            | ClientRequest::removeAccount(v, c, r)
            | ClientRequest::acquirePrtSsoCookie(v, c, r)
            | ClientRequest::generateSignedHttpRequest(v, c, r)
            | ClientRequest::cancelInteractiveFlow(v, c, r)
            | ClientRequest::getLinuxBrokerVersion(v, c, r) => (operation, v, c, r),
        }
    }
}

} // verus!
