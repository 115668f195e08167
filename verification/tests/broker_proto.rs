use identity_broker::broker_proto::{ClientRequest, Operation};

const NAMES: [(Operation, &str); 8] = [
    (Operation::AcquireTokenInteractively, "acquireTokenInteractively"),
    (Operation::AcquireTokenSilently, "acquireTokenSilently"),
    (Operation::GetAccounts, "getAccounts"),
    (Operation::RemoveAccount, "removeAccount"),
    (Operation::AcquirePrtSsoCookie, "acquirePrtSsoCookie"),
    (Operation::GenerateSignedHttpRequest, "generateSignedHttpRequest"),
    (Operation::CancelInteractiveFlow, "cancelInteractiveFlow"),
    (Operation::GetLinuxBrokerVersion, "getLinuxBrokerVersion"),
];

#[test]
fn operations_are_listed_in_order_with_their_names() {
    let all = Operation::all();
    assert_eq!(all.len(), 8);
    for (i, (operation, name)) in NAMES.iter().enumerate() {
        assert_eq!(all[i], *operation);
        assert_eq!(operation.wire_name(), *name);
    }
}

#[test]
fn operation_names_are_distinct() {
    for (a, name_a) in NAMES {
        for (b, name_b) in NAMES {
            assert_eq!(name_a == name_b, a == b);
        }
    }
}

#[test]
fn a_request_is_built_from_its_parts() {
    assert_eq!(
        ClientRequest::new(Operation::AcquireTokenInteractively, "v".into(), "c".into(), "r".into()),
        ClientRequest::acquireTokenInteractively("v".into(), "c".into(), "r".into())
    );
    assert_eq!(
        ClientRequest::new(Operation::AcquireTokenSilently, "v".into(), "c".into(), "r".into()),
        ClientRequest::acquireTokenSilently("v".into(), "c".into(), "r".into())
    );
    assert_eq!(
        ClientRequest::new(Operation::GetAccounts, "v".into(), "c".into(), "r".into()),
        ClientRequest::getAccounts("v".into(), "c".into(), "r".into())
    );
    assert_eq!(
        ClientRequest::new(Operation::RemoveAccount, "v".into(), "c".into(), "r".into()),
        ClientRequest::removeAccount("v".into(), "c".into(), "r".into())
    );
    assert_eq!(
        ClientRequest::new(Operation::AcquirePrtSsoCookie, "v".into(), "c".into(), "r".into()),
        ClientRequest::acquirePrtSsoCookie("v".into(), "c".into(), "r".into())
    );
    assert_eq!(
        ClientRequest::new(Operation::GenerateSignedHttpRequest, "v".into(), "c".into(), "r".into()),
        ClientRequest::generateSignedHttpRequest("v".into(), "c".into(), "r".into())
    );
    assert_eq!(
        ClientRequest::new(Operation::CancelInteractiveFlow, "v".into(), "c".into(), "r".into()),
        ClientRequest::cancelInteractiveFlow("v".into(), "c".into(), "r".into())
    );
    assert_eq!(
        ClientRequest::new(Operation::GetLinuxBrokerVersion, "v".into(), "c".into(), "r".into()),
        ClientRequest::getLinuxBrokerVersion("v".into(), "c".into(), "r".into())
    );
}

#[test]
fn a_request_gives_its_parts_in_order() {
    for (operation, _) in NAMES {
        let request = ClientRequest::new(operation, "0.1".into(), "corr".into(), "{}".into());
        assert_eq!(request.operation(), operation);
        assert_eq!(request.fields(), ("0.1", "corr", "{}"));
        assert_eq!(
            request.into_parts(),
            (operation, "0.1".to_string(), "corr".to_string(), "{}".to_string())
        );
    }
}
