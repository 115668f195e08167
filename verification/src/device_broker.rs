//! The device capability broker: key management and signing for callers on
//! the privileged bus.
//!
//! Every operation takes a session id and a request document and gives back
//! one result document or a declined status. The session id is the caller's
//! own; what it entitles the caller to is for the implementation to decide.

use crate::bus::{
    expose_device_method, insert_object, is_member_name, new_table, object_paths, path_interfaces,
    register_device_interface, registered_interfaces, registered_members, spec_shape,
    InterfaceDraft, MethodShape, RegisteredInterface,
};
use vstd::prelude::*;

verus! {

/// The interface under which the device broker's operations are offered.
pub const DEVICE_BROKER_INTERFACE: &'static str = "com.microsoft.identity.DeviceBroker1";

/// The bus name that a device broker service claims.
pub const DEVICE_BROKER_BUS_NAME: &'static str = "com.microsoft.identity.DeviceBroker1";

/// The one object path at which the device broker answers.
pub const DEVICE_BROKER_PATH: &'static str = "/com/microsoft/identity/devicebroker1";

/// The operations of the device broker.
#[derive(Clone, Copy, PartialEq, Eq, Structural, Debug)]
pub enum DeviceOperation {
    Sign,
    GenerateKeyPair,
    LoadKeyPair,
    PersistKey,
    GenerateDerivedKey,
    DeleteKey,
    Decrypt,
    GeneratePkcs10CertSigningRequest,
    AsymmetricKeyExists,
    AsymmetricKeyWithThumbprintExists,
    GetAsymmetricKeyThumbprint,
    GenerateAsymmetricKey,
    GetAsymmetricKeyCreationDate,
    ClearAsymmetricKey,
    GetRequestConfirmation,
    MintSignedAccessToken,
    MintSignedHttpRequest,
    MakeHttpRequestWithClientTls,
}

impl DeviceOperation {
    /// The name of the bus method that stands for the operation.
    pub open spec fn spec_member_name(self) -> Seq<char> {
        match self {
            DeviceOperation::Sign => "sign"@,
            DeviceOperation::GenerateKeyPair => "generateKeyPair"@,
            DeviceOperation::LoadKeyPair => "loadKeyPair"@,
            DeviceOperation::PersistKey => "persistKey"@,
            DeviceOperation::GenerateDerivedKey => "generateDerivedKey"@,
            DeviceOperation::DeleteKey => "deleteKey"@,
            DeviceOperation::Decrypt => "decrypt"@,
            DeviceOperation::GeneratePkcs10CertSigningRequest => {
                "generatePKCS10CertSigningRequest"@
            },
            DeviceOperation::AsymmetricKeyExists => "asymmetricKeyExists"@,
            DeviceOperation::AsymmetricKeyWithThumbprintExists => {
                "asymmetricKeyWithThumbprintExists"@
            },
            DeviceOperation::GetAsymmetricKeyThumbprint => "getAsymmetricKeyThumbprint"@,
            DeviceOperation::GenerateAsymmetricKey => "generateAsymmetricKey"@,
            DeviceOperation::GetAsymmetricKeyCreationDate => "getAsymmetricKeyCreationDate"@,
            DeviceOperation::ClearAsymmetricKey => "clearAsymmetricKey"@,
            DeviceOperation::GetRequestConfirmation => "getRequestConfirmation"@,
            DeviceOperation::MintSignedAccessToken => "mintSignedAccessToken"@,
            DeviceOperation::MintSignedHttpRequest => "mintSignedHttpRequest"@,
            DeviceOperation::MakeHttpRequestWithClientTls => "makeHttpRequestWithClientTls"@,
        }
    }

    /// All operations, in the order in which they are registered.
    pub open spec fn spec_all() -> Seq<DeviceOperation> {
        seq![
            DeviceOperation::Sign,
            DeviceOperation::GenerateKeyPair,
            DeviceOperation::LoadKeyPair,
            DeviceOperation::PersistKey,
            DeviceOperation::GenerateDerivedKey,
            DeviceOperation::DeleteKey,
            DeviceOperation::Decrypt,
            DeviceOperation::GeneratePkcs10CertSigningRequest,
            DeviceOperation::AsymmetricKeyExists,
            DeviceOperation::AsymmetricKeyWithThumbprintExists,
            DeviceOperation::GetAsymmetricKeyThumbprint,
            DeviceOperation::GenerateAsymmetricKey,
            DeviceOperation::GetAsymmetricKeyCreationDate,
            DeviceOperation::ClearAsymmetricKey,
            DeviceOperation::GetRequestConfirmation,
            DeviceOperation::MintSignedAccessToken,
            DeviceOperation::MintSignedHttpRequest,
            DeviceOperation::MakeHttpRequestWithClientTls,
        ]
    }

    /// The name of the bus method that stands for the operation.
    pub fn member_name(self) -> (name: &'static str)
        ensures
            name@ == self.spec_member_name(),
    {
        match self {
            DeviceOperation::Sign => "sign",
            DeviceOperation::GenerateKeyPair => "generateKeyPair",
            DeviceOperation::LoadKeyPair => "loadKeyPair",
            DeviceOperation::PersistKey => "persistKey",
            DeviceOperation::GenerateDerivedKey => "generateDerivedKey",
            DeviceOperation::DeleteKey => "deleteKey",
            DeviceOperation::Decrypt => "decrypt",
            DeviceOperation::GeneratePkcs10CertSigningRequest => "generatePKCS10CertSigningRequest",
            DeviceOperation::AsymmetricKeyExists => "asymmetricKeyExists",
            DeviceOperation::AsymmetricKeyWithThumbprintExists => {
                "asymmetricKeyWithThumbprintExists"
            },
            DeviceOperation::GetAsymmetricKeyThumbprint => "getAsymmetricKeyThumbprint",
            DeviceOperation::GenerateAsymmetricKey => "generateAsymmetricKey",
            DeviceOperation::GetAsymmetricKeyCreationDate => "getAsymmetricKeyCreationDate",
            DeviceOperation::ClearAsymmetricKey => "clearAsymmetricKey",
            DeviceOperation::GetRequestConfirmation => "getRequestConfirmation",
            DeviceOperation::MintSignedAccessToken => "mintSignedAccessToken",
            DeviceOperation::MintSignedHttpRequest => "mintSignedHttpRequest",
            DeviceOperation::MakeHttpRequestWithClientTls => "makeHttpRequestWithClientTls",
        }
    }

    /// All operations, in the order in which they are registered.
    pub fn all() -> (operations: Vec<DeviceOperation>)
        ensures
            operations@ == Self::spec_all(),
    {
        let mut operations: Vec<DeviceOperation> = Vec::new();
        operations.push(DeviceOperation::Sign);
        operations.push(DeviceOperation::GenerateKeyPair);
        operations.push(DeviceOperation::LoadKeyPair);
        operations.push(DeviceOperation::PersistKey);
        operations.push(DeviceOperation::GenerateDerivedKey);
        operations.push(DeviceOperation::DeleteKey);
        operations.push(DeviceOperation::Decrypt);
        operations.push(DeviceOperation::GeneratePkcs10CertSigningRequest);
        operations.push(DeviceOperation::AsymmetricKeyExists);
        operations.push(DeviceOperation::AsymmetricKeyWithThumbprintExists);
        operations.push(DeviceOperation::GetAsymmetricKeyThumbprint);
        operations.push(DeviceOperation::GenerateAsymmetricKey);
        operations.push(DeviceOperation::GetAsymmetricKeyCreationDate);
        operations.push(DeviceOperation::ClearAsymmetricKey);
        operations.push(DeviceOperation::GetRequestConfirmation);
        operations.push(DeviceOperation::MintSignedAccessToken);
        operations.push(DeviceOperation::MintSignedHttpRequest);
        operations.push(DeviceOperation::MakeHttpRequestWithClientTls);
        assert(operations@ =~= Self::spec_all());
        operations
    }

    /// Every operation's name is one that the bus accepts for a method.
    pub proof fn law_member_name_well_formed(self)
        ensures
            is_member_name(self.spec_member_name()),
    {
        match self {
            DeviceOperation::Sign => reveal_strlit("sign"),
            DeviceOperation::GenerateKeyPair => reveal_strlit("generateKeyPair"),
            DeviceOperation::LoadKeyPair => reveal_strlit("loadKeyPair"),
            DeviceOperation::PersistKey => reveal_strlit("persistKey"),
            DeviceOperation::GenerateDerivedKey => reveal_strlit("generateDerivedKey"),
            DeviceOperation::DeleteKey => reveal_strlit("deleteKey"),
            DeviceOperation::Decrypt => reveal_strlit("decrypt"),
            DeviceOperation::GeneratePkcs10CertSigningRequest => reveal_strlit(
                "generatePKCS10CertSigningRequest",
            ),
            DeviceOperation::AsymmetricKeyExists => reveal_strlit("asymmetricKeyExists"),
            DeviceOperation::AsymmetricKeyWithThumbprintExists => reveal_strlit(
                "asymmetricKeyWithThumbprintExists",
            ),
            DeviceOperation::GetAsymmetricKeyThumbprint => reveal_strlit(
                "getAsymmetricKeyThumbprint",
            ),
            DeviceOperation::GenerateAsymmetricKey => reveal_strlit("generateAsymmetricKey"),
            DeviceOperation::GetAsymmetricKeyCreationDate => reveal_strlit(
                "getAsymmetricKeyCreationDate",
            ),
            DeviceOperation::ClearAsymmetricKey => reveal_strlit("clearAsymmetricKey"),
            DeviceOperation::GetRequestConfirmation => reveal_strlit("getRequestConfirmation"),
            DeviceOperation::MintSignedAccessToken => reveal_strlit("mintSignedAccessToken"),
            DeviceOperation::MintSignedHttpRequest => reveal_strlit("mintSignedHttpRequest"),
            DeviceOperation::MakeHttpRequestWithClientTls => reveal_strlit(
                "makeHttpRequestWithClientTls",
            ),
        }
    }

    /// No two operations share a name, so each has a bus method of its own.
    pub proof fn law_member_names_distinct(a: DeviceOperation, b: DeviceOperation)
        ensures
            a.spec_member_name() == b.spec_member_name() <==> a == b,
    {
        if a != b {
            a.lemma_member_name_text();
            b.lemma_member_name_text();
        }
    }

    /// The length of an operation's name, its first letter and, where it
    /// has one, its eleventh: enough to tell any two names apart.
    proof fn lemma_member_name_text(self)
        ensures
            self.spec_member_name().len() == self.spec_member_name_marks().0,
            self.spec_member_name()[0] == self.spec_member_name_marks().1,
            self.spec_member_name().len() > 10 ==> self.spec_member_name()[10]
                == self.spec_member_name_marks().2,
    {
        match self {
            DeviceOperation::Sign => reveal_strlit("sign"),
            DeviceOperation::GenerateKeyPair => reveal_strlit("generateKeyPair"),
            DeviceOperation::LoadKeyPair => reveal_strlit("loadKeyPair"),
            DeviceOperation::PersistKey => reveal_strlit("persistKey"),
            DeviceOperation::GenerateDerivedKey => reveal_strlit("generateDerivedKey"),
            DeviceOperation::DeleteKey => reveal_strlit("deleteKey"),
            DeviceOperation::Decrypt => reveal_strlit("decrypt"),
            DeviceOperation::GeneratePkcs10CertSigningRequest => reveal_strlit(
                "generatePKCS10CertSigningRequest",
            ),
            DeviceOperation::AsymmetricKeyExists => reveal_strlit("asymmetricKeyExists"),
            DeviceOperation::AsymmetricKeyWithThumbprintExists => reveal_strlit(
                "asymmetricKeyWithThumbprintExists",
            ),
            DeviceOperation::GetAsymmetricKeyThumbprint => reveal_strlit(
                "getAsymmetricKeyThumbprint",
            ),
            DeviceOperation::GenerateAsymmetricKey => reveal_strlit("generateAsymmetricKey"),
            DeviceOperation::GetAsymmetricKeyCreationDate => reveal_strlit(
                "getAsymmetricKeyCreationDate",
            ),
            DeviceOperation::ClearAsymmetricKey => reveal_strlit("clearAsymmetricKey"),
            DeviceOperation::GetRequestConfirmation => reveal_strlit("getRequestConfirmation"),
            DeviceOperation::MintSignedAccessToken => reveal_strlit("mintSignedAccessToken"),
            DeviceOperation::MintSignedHttpRequest => reveal_strlit("mintSignedHttpRequest"),
            DeviceOperation::MakeHttpRequestWithClientTls => reveal_strlit(
                "makeHttpRequestWithClientTls",
            ),
        }
    }

    spec fn spec_member_name_marks(self) -> (nat, char, char) {
        match self {
            DeviceOperation::Sign => (4, 's', 's'),
            DeviceOperation::GenerateKeyPair => (15, 'g', 'y'),
            DeviceOperation::LoadKeyPair => (11, 'l', 'r'),
            DeviceOperation::PersistKey => (10, 'p', 'p'),
            DeviceOperation::GenerateDerivedKey => (18, 'g', 'r'),
            DeviceOperation::DeleteKey => (9, 'd', 'd'),
            DeviceOperation::Decrypt => (7, 'd', 'd'),
            DeviceOperation::GeneratePkcs10CertSigningRequest => (32, 'g', 'C'),
            DeviceOperation::AsymmetricKeyExists => (19, 'a', 'K'),
            DeviceOperation::AsymmetricKeyWithThumbprintExists => (33, 'a', 'K'),
            DeviceOperation::GetAsymmetricKeyThumbprint => (26, 'g', 'r'),
            DeviceOperation::GenerateAsymmetricKey => (21, 'g', 'y'),
            DeviceOperation::GetAsymmetricKeyCreationDate => (28, 'g', 'r'),
            DeviceOperation::ClearAsymmetricKey => (18, 'c', 'e'),
            DeviceOperation::GetRequestConfirmation => (22, 'g', 'C'),
            DeviceOperation::MintSignedAccessToken => (21, 'm', 'A'),
            DeviceOperation::MintSignedHttpRequest => (21, 'm', 'H'),
            DeviceOperation::MakeHttpRequestWithClientTls => (28, 'm', 'q'),
        }
    }

    /// Every operation is in the table, once.
    pub proof fn law_all_complete(operation: DeviceOperation)
        ensures
            exists|i: int|
                0 <= i < Self::spec_all().len() && #[trigger] Self::spec_all()[i] == operation,
            forall|i: int, j: int|
                0 <= i < j < Self::spec_all().len() ==> Self::spec_all()[i] != Self::spec_all()[j],
    {
        let all = Self::spec_all();
        assert(all[0] == DeviceOperation::Sign);
        assert(all[1] == DeviceOperation::GenerateKeyPair);
        assert(all[2] == DeviceOperation::LoadKeyPair);
        assert(all[3] == DeviceOperation::PersistKey);
        assert(all[4] == DeviceOperation::GenerateDerivedKey);
        assert(all[5] == DeviceOperation::DeleteKey);
        assert(all[6] == DeviceOperation::Decrypt);
        assert(all[7] == DeviceOperation::GeneratePkcs10CertSigningRequest);
        assert(all[8] == DeviceOperation::AsymmetricKeyExists);
        assert(all[9] == DeviceOperation::AsymmetricKeyWithThumbprintExists);
        assert(all[10] == DeviceOperation::GetAsymmetricKeyThumbprint);
        assert(all[11] == DeviceOperation::GenerateAsymmetricKey);
        assert(all[12] == DeviceOperation::GetAsymmetricKeyCreationDate);
        assert(all[13] == DeviceOperation::ClearAsymmetricKey);
        assert(all[14] == DeviceOperation::GetRequestConfirmation);
        assert(all[15] == DeviceOperation::MintSignedAccessToken);
        assert(all[16] == DeviceOperation::MintSignedHttpRequest);
        assert(all[17] == DeviceOperation::MakeHttpRequestWithClientTls);
    }
}

/// What a device broker can do. The service is given one implementation and
/// turns every bus call into a call of the method that stands for the
/// operation.
pub trait DeviceBroker: Sized {
    /// The implementation's own account of its answers: whether, asked for
    /// `operation` with these arguments, it may give `outcome` and be left
    /// as `after`. An implementation that says nothing of itself leaves
    /// this as it is: anything may be its answer.
    open spec fn may_answer(
        &self,
        operation: DeviceOperation,
        session_id: Seq<char>,
        request_json: Seq<char>,
        outcome: Result<String, dbus::MethodErr>,
        after: &Self,
    ) -> bool {
        true
    }

    fn sign(
        &mut self,
        session_id: String,
        request_json: String,
    ) -> (outcome: Result<String, dbus::MethodErr>)
        ensures
            old(self).may_answer(
                DeviceOperation::Sign,
                session_id@,
                request_json@,
                outcome,
                final(self),
            ),
    ;

    fn generate_key_pair(
        &mut self,
        session_id: String,
        request_json: String,
    ) -> (outcome: Result<String, dbus::MethodErr>)
        ensures
            old(self).may_answer(
                DeviceOperation::GenerateKeyPair,
                session_id@,
                request_json@,
                outcome,
                final(self),
            ),
    ;

    fn load_key_pair(
        &mut self,
        session_id: String,
        request_json: String,
    ) -> (outcome: Result<String, dbus::MethodErr>)
        ensures
            old(self).may_answer(
                DeviceOperation::LoadKeyPair,
                session_id@,
                request_json@,
                outcome,
                final(self),
            ),
    ;

    fn persist_key(
        &mut self,
        session_id: String,
        request_json: String,
    ) -> (outcome: Result<String, dbus::MethodErr>)
        ensures
            old(self).may_answer(
                DeviceOperation::PersistKey,
                session_id@,
                request_json@,
                outcome,
                final(self),
            ),
    ;

    fn generate_derived_key(
        &mut self,
        session_id: String,
        request_json: String,
    ) -> (outcome: Result<String, dbus::MethodErr>)
        ensures
            old(self).may_answer(
                DeviceOperation::GenerateDerivedKey,
                session_id@,
                request_json@,
                outcome,
                final(self),
            ),
    ;

    fn delete_key(
        &mut self,
        session_id: String,
        request_json: String,
    ) -> (outcome: Result<String, dbus::MethodErr>)
        ensures
            old(self).may_answer(
                DeviceOperation::DeleteKey,
                session_id@,
                request_json@,
                outcome,
                final(self),
            ),
    ;

    fn decrypt(
        &mut self,
        session_id: String,
        request_json: String,
    ) -> (outcome: Result<String, dbus::MethodErr>)
        ensures
            old(self).may_answer(
                DeviceOperation::Decrypt,
                session_id@,
                request_json@,
                outcome,
                final(self),
            ),
    ;

    fn generate_pkcs10_cert_signing_request(
        &mut self,
        session_id: String,
        request_json: String,
    ) -> (outcome: Result<String, dbus::MethodErr>)
        ensures
            old(self).may_answer(
                DeviceOperation::GeneratePkcs10CertSigningRequest,
                session_id@,
                request_json@,
                outcome,
                final(self),
            ),
    ;

    fn asymmetric_key_exists(
        &mut self,
        session_id: String,
        request_json: String,
    ) -> (outcome: Result<String, dbus::MethodErr>)
        ensures
            old(self).may_answer(
                DeviceOperation::AsymmetricKeyExists,
                session_id@,
                request_json@,
                outcome,
                final(self),
            ),
    ;

    fn asymmetric_key_with_thumbprint_exists(
        &mut self,
        session_id: String,
        request_json: String,
    ) -> (outcome: Result<String, dbus::MethodErr>)
        ensures
            old(self).may_answer(
                DeviceOperation::AsymmetricKeyWithThumbprintExists,
                session_id@,
                request_json@,
                outcome,
                final(self),
            ),
    ;

    fn get_asymmetric_key_thumbprint(
        &mut self,
        session_id: String,
        request_json: String,
    ) -> (outcome: Result<String, dbus::MethodErr>)
        ensures
            old(self).may_answer(
                DeviceOperation::GetAsymmetricKeyThumbprint,
                session_id@,
                request_json@,
                outcome,
                final(self),
            ),
    ;

    fn generate_asymmetric_key(
        &mut self,
        session_id: String,
        request_json: String,
    ) -> (outcome: Result<String, dbus::MethodErr>)
        ensures
            old(self).may_answer(
                DeviceOperation::GenerateAsymmetricKey,
                session_id@,
                request_json@,
                outcome,
                final(self),
            ),
    ;

    fn get_asymmetric_key_creation_date(
        &mut self,
        session_id: String,
        request_json: String,
    ) -> (outcome: Result<String, dbus::MethodErr>)
        ensures
            old(self).may_answer(
                DeviceOperation::GetAsymmetricKeyCreationDate,
                session_id@,
                request_json@,
                outcome,
                final(self),
            ),
    ;

    fn clear_asymmetric_key(
        &mut self,
        session_id: String,
        request_json: String,
    ) -> (outcome: Result<String, dbus::MethodErr>)
        ensures
            old(self).may_answer(
                DeviceOperation::ClearAsymmetricKey,
                session_id@,
                request_json@,
                outcome,
                final(self),
            ),
    ;

    fn get_request_confirmation(
        &mut self,
        session_id: String,
        request_json: String,
    ) -> (outcome: Result<String, dbus::MethodErr>)
        ensures
            old(self).may_answer(
                DeviceOperation::GetRequestConfirmation,
                session_id@,
                request_json@,
                outcome,
                final(self),
            ),
    ;

    fn mint_signed_access_token(
        &mut self,
        session_id: String,
        request_json: String,
    ) -> (outcome: Result<String, dbus::MethodErr>)
        ensures
            old(self).may_answer(
                DeviceOperation::MintSignedAccessToken,
                session_id@,
                request_json@,
                outcome,
                final(self),
            ),
    ;

    fn mint_signed_http_request(
        &mut self,
        session_id: String,
        request_json: String,
    ) -> (outcome: Result<String, dbus::MethodErr>)
        ensures
            old(self).may_answer(
                DeviceOperation::MintSignedHttpRequest,
                session_id@,
                request_json@,
                outcome,
                final(self),
            ),
    ;

    fn make_http_request_with_client_tls(
        &mut self,
        session_id: String,
        request_json: String,
    ) -> (outcome: Result<String, dbus::MethodErr>)
        ensures
            old(self).may_answer(
                DeviceOperation::MakeHttpRequestWithClientTls,
                session_id@,
                request_json@,
                outcome,
                final(self),
            ),
    ;

}

/// Asks `broker` for `operation`: the session id and the request document
/// are handed on as they are, and the broker's answer is handed back as it
/// is, a declined status included.
pub fn dispatch_device<T: DeviceBroker>(
    broker: &mut T,
    operation: DeviceOperation,
    session_id: String,
    request_json: String,
) -> (outcome: Result<String, dbus::MethodErr>)
    ensures
        old(broker).may_answer(operation, session_id@, request_json@, outcome, final(broker)),
{
    match operation {
        DeviceOperation::Sign => broker.sign(session_id, request_json),
        DeviceOperation::GenerateKeyPair => broker.generate_key_pair(session_id, request_json),
        DeviceOperation::LoadKeyPair => broker.load_key_pair(session_id, request_json),
        DeviceOperation::PersistKey => broker.persist_key(session_id, request_json),
        DeviceOperation::GenerateDerivedKey => {
            broker.generate_derived_key(session_id, request_json)
        },
        DeviceOperation::DeleteKey => broker.delete_key(session_id, request_json),
        DeviceOperation::Decrypt => broker.decrypt(session_id, request_json),
        DeviceOperation::GeneratePkcs10CertSigningRequest => {
            broker.generate_pkcs10_cert_signing_request(session_id, request_json)
        },
        DeviceOperation::AsymmetricKeyExists => {
            broker.asymmetric_key_exists(session_id, request_json)
        },
        DeviceOperation::AsymmetricKeyWithThumbprintExists => {
            broker.asymmetric_key_with_thumbprint_exists(session_id, request_json)
        },
        DeviceOperation::GetAsymmetricKeyThumbprint => {
            broker.get_asymmetric_key_thumbprint(session_id, request_json)
        },
        DeviceOperation::GenerateAsymmetricKey => {
            broker.generate_asymmetric_key(session_id, request_json)
        },
        DeviceOperation::GetAsymmetricKeyCreationDate => {
            broker.get_asymmetric_key_creation_date(session_id, request_json)
        },
        DeviceOperation::ClearAsymmetricKey => {
            broker.clear_asymmetric_key(session_id, request_json)
        },
        DeviceOperation::GetRequestConfirmation => {
            broker.get_request_confirmation(session_id, request_json)
        },
        DeviceOperation::MintSignedAccessToken => {
            broker.mint_signed_access_token(session_id, request_json)
        },
        DeviceOperation::MintSignedHttpRequest => {
            broker.mint_signed_http_request(session_id, request_json)
        },
        DeviceOperation::MakeHttpRequestWithClientTls => {
            broker.make_http_request_with_client_tls(session_id, request_json)
        },
    }
}

/// The name of the first argument of every method: the caller's session.
pub const SESSION_ID_ARGUMENT: &'static str = "session_id";

/// The name of the second argument of every method: the request document.
pub const REQUEST_ARGUMENT: &'static str = "request_json";

/// The name of the one result of every method.
pub const RESULT_ARGUMENT: &'static str = "result";

/// The shape of every method of the device broker: a session id and a
/// request document go in, one result comes back.
pub open spec fn spec_device_shape() -> MethodShape {
    spec_shape(seq![SESSION_ID_ARGUMENT@, REQUEST_ARGUMENT@], seq![RESULT_ARGUMENT@])
}

/// The methods that stand for `operations`: one under the name of each.
pub open spec fn spec_device_members_of(operations: Seq<DeviceOperation>) -> Map<
    Seq<char>,
    MethodShape,
> {
    Map::new(
        |name: Seq<char>|
            exists|k: int|
                0 <= k < operations.len() && #[trigger] operations[k].spec_member_name() == name,
        |name: Seq<char>| spec_device_shape(),
    )
}

/// The methods of the device broker's interface: one for each operation,
/// under the operation's name, and no other.
pub open spec fn spec_device_members() -> Map<Seq<char>, MethodShape> {
    spec_device_members_of(DeviceOperation::spec_all())
}

/// The interface has a method of a given name exactly where an operation
/// goes by that name. With [`DeviceOperation::law_member_names_distinct`],
/// the names and the operations stand one to one.
pub proof fn law_device_members_are_the_operations(name: Seq<char>)
    ensures
        spec_device_members().contains_key(name) <==> exists|operation: DeviceOperation|
            #[trigger] operation.spec_member_name() == name,
        spec_device_members().contains_key(name) ==> spec_device_members()[name]
            == spec_device_shape(),
{
    let all = DeviceOperation::spec_all();
    if exists|operation: DeviceOperation| #[trigger] operation.spec_member_name() == name {
        let operation = choose|operation: DeviceOperation|
            #[trigger] operation.spec_member_name() == name;
        DeviceOperation::law_all_complete(operation);
        let k = choose|k: int| 0 <= k < all.len() && #[trigger] all[k] == operation;
        assert(all[k].spec_member_name() == name);
    }
}

/// Adds one bus method for each operation of the device broker, under the
/// operation's name and with the shape of [`spec_device_shape`]. Methods
/// that the interface holds already are kept as they are.
pub(crate) fn describe_device_broker<T: DeviceBroker + Send + 'static>(
    draft: &mut InterfaceDraft<T>,
)
    ensures
        final(draft).members() == spec_device_members().union_prefer_right(old(draft).members()),
{
    let operations = DeviceOperation::all();
    let mut i: usize = 0;
    assert(draft.members() =~= spec_device_members_of(
        operations@.take(0),
    ).union_prefer_right(old(draft).members()));
    while i < operations.len()
        invariant
            i <= operations.len(),
            operations@ == DeviceOperation::spec_all(),
            draft.members() == spec_device_members_of(
                operations@.take(i as int),
            ).union_prefer_right(old(draft).members()),
        decreases operations.len() - i,
    {
        let operation = operations[i];
        proof {
            operation.law_member_name_well_formed();
        }
        let ghost before = draft.members();
        expose_device_method(
            draft,
            operation.member_name(),
            (SESSION_ID_ARGUMENT, REQUEST_ARGUMENT),
            (RESULT_ARGUMENT,),
            operation,
        );
        proof {
            let done = operations@.take(i as int);
            let next = operations@.take(i + 1);
            assert(next[i as int] == operation);
            assert forall|k: int| 0 <= k < done.len() implies done[k] == next[k] by {}
            assert forall|name: Seq<char>|
                spec_device_members_of(next).contains_key(name) <==> (spec_device_members_of(
                    done,
                ).contains_key(name) || name == operation.spec_member_name()) by {
                if spec_device_members_of(next).contains_key(name) {
                    let k = choose|k: int|
                        0 <= k < next.len() && #[trigger] next[k].spec_member_name() == name;
                    if k < i {
                        assert(done[k].spec_member_name() == name);
                    }
                }
                if spec_device_members_of(done).contains_key(name) {
                    let k = choose|k: int|
                        0 <= k < done.len() && #[trigger] done[k].spec_member_name() == name;
                    assert(next[k].spec_member_name() == name);
                }
                if name == operation.spec_member_name() {
                    assert(next[i as int].spec_member_name() == name);
                }
            }
            assert(draft.members() =~= spec_device_members_of(next).union_prefer_right(
                old(draft).members(),
            ));
        }
        i += 1;
    }
    assert(operations@.take(operations.len() as int) =~= operations@);
}

/// Registers the device broker's interface in `table` and gives back its
/// handle with its place.
fn register_device<T: DeviceBroker + Send + 'static>(
    table: &mut dbus_crossroads::Crossroads,
) -> (registered: RegisteredInterface<T>)
    ensures
        registered_interfaces(*final(table)) == registered_interfaces(*old(table)).push(
            DEVICE_BROKER_INTERFACE@,
        ),
        registered_members(*final(table)) == registered_members(*old(table)).push(
            spec_device_members(),
        ),
        object_paths(*final(table)) == object_paths(*old(table)),
        registered.place() == registered_interfaces(*old(table)).len(),
{
    proof {
        reveal_strlit("com.microsoft.identity.DeviceBroker1");
        assert(DEVICE_BROKER_INTERFACE@[3] == '.');
    }
    register_device_interface(table, DEVICE_BROKER_INTERFACE)
}

/// Registers the device broker's interface in `cr` and gives back its
/// handle. The interface is the last in the table and holds one method for
/// each operation of the device broker, under the operation's name; no path
/// is added.
pub fn register_device_broker<T>(cr: &mut dbus_crossroads::Crossroads) -> (token:
    dbus_crossroads::IfaceToken<T>) where T: DeviceBroker + Send + 'static
    ensures
        registered_interfaces(*final(cr)) == registered_interfaces(*old(cr)).push(
            DEVICE_BROKER_INTERFACE@,
        ),
        registered_members(*final(cr)) == registered_members(*old(cr)).push(
            spec_device_members(),
        ),
        object_paths(*final(cr)) == object_paths(*old(cr)),
{
    register_device(cr).into_token()
}

/// The table of a device broker service: the device broker's interface,
/// registered last and with one method for each operation, and `broker`
/// answering for it at [`DEVICE_BROKER_PATH`].
pub fn device_broker_table<T>(broker: T) -> (table: dbus_crossroads::Crossroads) where
    T: DeviceBroker + Send + 'static,
    ensures
        registered_interfaces(table).len() > 0,
        registered_members(table).len() == registered_interfaces(table).len(),
        registered_interfaces(table).last() == DEVICE_BROKER_INTERFACE@,
        registered_members(table).last() == spec_device_members(),
        object_paths(table).contains(DEVICE_BROKER_PATH@),
        path_interfaces(table, DEVICE_BROKER_PATH@).contains(
            registered_interfaces(table).len() - 1,
        ),
{
    let mut table = new_table();
    let registered = register_device::<T>(&mut table);
    proof {
        reveal_strlit("/com/microsoft/identity/devicebroker1");
    }
    insert_object(&mut table, DEVICE_BROKER_PATH, registered, broker);
    table
}

} // verus!
