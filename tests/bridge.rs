use openthread_dns::{
    c_name, host_address_outcome, is_unspecified_address, service_and_host_outcome,
    submission_outcome, DnsClient, DnsOutcome, DnsResolutionResponse, Readiness, SingleShot,
    SubmitError, HOST_ADDRESS_PORT, NOT_FOUND,
};

const DOC_ADDRESS: [u8; 16] = [0x20, 0x01, 0x0d, 0xb8, 0, 0, 0, 0, 0, 0, 0, 0, 0, 0, 0, 0x01];

#[test]
fn host_address_success_is_delivered() {
    let client = DnsClient::new(7u32);
    let mut slot: SingleShot<DnsOutcome> = SingleShot::new();
    let query = slot.prepared(client.host_query("node.example")).expect("prepared");
    assert_eq!(query, b"node.example\0".to_vec());
    slot.submitted(Ok(()));
    assert_eq!(slot.poll(), Readiness::Pending);
    // the engine reports the address with a TTL of 300, which the outcome does not keep
    slot.complete(host_address_outcome(Ok(()), Ok(DOC_ADDRESS)));
    assert_eq!(
        slot.poll(),
        Readiness::Ready(DnsOutcome::Resolved(DnsResolutionResponse {
            ip_address: DOC_ADDRESS,
            port: HOST_ADDRESS_PORT,
        }))
    );
}

#[test]
fn service_failure_is_tagged() {
    let client = DnsClient::new(());
    let mut slot: SingleShot<DnsOutcome> = SingleShot::new();
    let (label, service) = slot
        .prepared(client.service_query("printer", "_ipp._tcp.default.service.arpa"))
        .expect("prepared");
    assert_eq!(label, b"printer\0".to_vec());
    assert_eq!(service, b"_ipp._tcp.default.service.arpa\0".to_vec());
    slot.submitted(Ok(()));
    slot.complete(service_and_host_outcome(Err(28), Ok(([0u8; 16], 0))));
    assert_eq!(slot.poll(), Readiness::Ready(DnsOutcome::ResolutionFailed(28)));
    assert_ne!(
        slot.poll(),
        Readiness::Ready(DnsOutcome::Resolved(DnsResolutionResponse { ip_address: [0u8; 16], port: 0 }))
    );
}

#[test]
fn embedded_terminator_fails_at_submission() {
    let client = DnsClient::new(());
    let mut slot: SingleShot<DnsOutcome> = SingleShot::new();
    assert_eq!(client.host_query("bad\0name"), Err(SubmitError::EmbeddedNul));
    assert!(slot.prepared(client.host_query("bad\0name")).is_none());
    assert!(slot.is_ready());
    assert_eq!(
        slot.poll(),
        Readiness::Ready(DnsOutcome::SubmissionFailed(SubmitError::EmbeddedNul))
    );
}

#[test]
fn independent_requests_keep_their_outcomes() {
    let client = DnsClient::new(());
    let mut a: SingleShot<DnsOutcome> = SingleShot::new();
    let mut b: SingleShot<DnsOutcome> = SingleShot::new();
    assert!(a.prepared(client.host_query("a.example")).is_some());
    a.submitted(Ok(()));
    assert!(b.prepared(client.host_query("b.example")).is_some());
    b.submitted(Ok(()));
    let mut other = DOC_ADDRESS;
    other[15] = 2;
    a.complete(host_address_outcome(Ok(()), Ok(DOC_ADDRESS)));
    assert_eq!(b.poll(), Readiness::Pending);
    b.complete(host_address_outcome(Ok(()), Ok(other)));
    assert_eq!(
        a.poll(),
        Readiness::Ready(DnsOutcome::Resolved(DnsResolutionResponse { ip_address: DOC_ADDRESS, port: 1212 }))
    );
    assert_eq!(
        b.poll(),
        Readiness::Ready(DnsOutcome::Resolved(DnsResolutionResponse { ip_address: other, port: 1212 }))
    );
}

#[test]
fn unready_poll_is_pending() {
    let slot: SingleShot<u16> = SingleShot::new();
    assert!(!slot.is_ready());
    assert_eq!(slot.poll(), Readiness::Pending);
    assert_eq!(slot.poll(), Readiness::Pending);
}

#[test]
fn ready_poll_repeats_value() {
    let mut slot: SingleShot<u16> = SingleShot::new();
    slot.complete(53);
    for _ in 0..5 {
        assert_eq!(slot.poll(), Readiness::Ready(53));
    }
}

#[test]
fn engine_refusal_resolves_at_once() {
    let client = DnsClient::new(());
    let mut slot: SingleShot<DnsOutcome> = SingleShot::new();
    assert!(slot.prepared(client.host_query("host.example")).is_some());
    slot.submitted(Err(3));
    assert_eq!(
        slot.poll(),
        Readiness::Ready(DnsOutcome::SubmissionFailed(SubmitError::Rejected(3)))
    );
}

#[test]
fn c_name_appends_terminator() {
    assert_eq!(c_name(""), Ok(vec![0u8]));
    assert_eq!(c_name("ab"), Ok(vec![b'a', b'b', 0u8]));
    assert_eq!(c_name("é"), Ok(vec![0xc3, 0xa9, 0u8]));
    assert_eq!(c_name("\0"), Err(SubmitError::EmbeddedNul));
    assert_eq!(c_name("ab\0"), Err(SubmitError::EmbeddedNul));
}

#[test]
fn service_query_refuses_either_name() {
    let client = DnsClient::new(());
    assert_eq!(client.service_query("x\0", "_s._udp"), Err(SubmitError::EmbeddedNul));
    assert_eq!(client.service_query("x", "_s\0._udp"), Err(SubmitError::EmbeddedNul));
    assert!(client.service_query("x", "_s._udp").is_ok());
}

#[test]
fn client_keeps_engine() {
    let client = DnsClient::new(42u8);
    assert_eq!(*client.engine(), 42u8);
}

#[test]
fn outcome_decoding() {
    assert_eq!(
        service_and_host_outcome(Ok(()), Ok((DOC_ADDRESS, 631))),
        DnsOutcome::Resolved(DnsResolutionResponse { ip_address: DOC_ADDRESS, port: 631 })
    );
    assert_eq!(host_address_outcome(Err(5), Ok(DOC_ADDRESS)), DnsOutcome::ResolutionFailed(5));
    assert_eq!(host_address_outcome(Ok(()), Err(23)), DnsOutcome::ResolutionFailed(23));
    assert_eq!(service_and_host_outcome(Ok(()), Err(6)), DnsOutcome::ResolutionFailed(6));
    assert_eq!(service_and_host_outcome(Err(4), Err(6)), DnsOutcome::ResolutionFailed(4));
}

#[test]
fn service_without_host_address_is_not_found() {
    let mut slot: SingleShot<DnsOutcome> = SingleShot::new();
    slot.submitted(Ok(()));
    slot.complete(service_and_host_outcome(Ok(()), Ok(([0u8; 16], 631))));
    assert_eq!(slot.poll(), Readiness::Ready(DnsOutcome::ResolutionFailed(NOT_FOUND)));
    assert_eq!(NOT_FOUND, 23);
}

#[test]
fn unspecified_address_detection() {
    assert!(is_unspecified_address(&[0u8; 16]));
    assert!(!is_unspecified_address(&DOC_ADDRESS));
    let mut last = [0u8; 16];
    last[15] = 1;
    assert!(!is_unspecified_address(&last));
    let mut first = [0u8; 16];
    first[0] = 0xfe;
    assert!(!is_unspecified_address(&first));
}

#[test]
fn submission_outcome_follows_status() {
    assert_eq!(submission_outcome(Ok(())), None);
    assert_eq!(
        submission_outcome(Err(7)),
        Some(DnsOutcome::SubmissionFailed(SubmitError::Rejected(7)))
    );
}
