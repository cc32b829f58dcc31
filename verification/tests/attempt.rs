use tonic_lnd::channel::RequestTarget;
use tonic_lnd::client::{Client, Service, ServiceClient};
use tonic_lnd::address::UriParts;
use tonic_lnd::connect::{start, start_with, CertSource, MacaroonSource, Step, TransportFailure};
use tonic_lnd::error::ErrorKind;
use tonic_lnd::interceptor::Metadata;
use tonic_lnd::tls::PinningError;
use tonic_lnd::{connect, unreliable_connect_from_memory, LndConnectError};

const C1: &str = "-----BEGIN CERTIFICATE-----\nQzE=\n-----END CERTIFICATE-----\n";

fn failure(step: Step) -> LndConnectError {
    match step {
        Step::Failed(error) => error,
        other => panic!("the attempt went on: {:?}", other),
    }
}

fn connected(address: &str, cert: Option<CertSource>, macaroon: MacaroonSource) -> Client {
    match start(address, cert, macaroon) {
        Step::Connect(awaiting) => awaiting.resume(Ok(())).unwrap(),
        other => panic!("the attempt asked for more: {:?}", other),
    }
}

fn check_call(client: &ServiceClient, scheme: &str, authority: &str, macaroon: &str) {
    let target = RequestTarget {
        scheme: None,
        authority: None,
        path_and_query: "/lnrpc.Lightning/GetInfo".to_string(),
    };
    let outgoing = client.prepare(target, Metadata::new());
    assert_eq!(outgoing.target.scheme, Some(scheme.to_string()));
    assert_eq!(outgoing.target.authority, Some(authority.to_string()));
    assert_eq!(outgoing.target.path_and_query, "/lnrpc.Lightning/GetInfo");
    assert_eq!(outgoing.metadata.get("macaroon"), Some(&macaroon.to_string()));
    assert_eq!(outgoing.metadata.len(), 1);
}

#[test]
fn an_attempt_from_files_reads_certificate_then_macaroon() {
    let step = connect("https://127.0.0.1:10009", "/lnd/tls.cert", "/lnd/admin.macaroon");
    let awaiting = match step {
        Step::ReadCert(awaiting) => awaiting,
        other => panic!("expected the certificate file to be read first: {:?}", other),
    };
    assert_eq!(awaiting.path(), "/lnd/tls.cert");
    let awaiting = match awaiting.resume(Ok(C1.as_bytes().to_vec())) {
        Step::ReadMacaroon(awaiting) => awaiting,
        other => panic!("expected the macaroon file to be read next: {:?}", other),
    };
    assert_eq!(awaiting.path(), "/lnd/admin.macaroon");
    let awaiting = match awaiting.resume(Ok(vec![0xAB, 0xCD])) {
        Step::Connect(awaiting) => awaiting,
        other => panic!("expected the channel to be made: {:?}", other),
    };
    assert!(awaiting.channel().is_secure());
    assert_eq!(awaiting.channel().address().authority(), "127.0.0.1:10009");
    assert_eq!(awaiting.interceptor().macaroon(), "abcd");
    let mut client = awaiting.resume(Ok(())).unwrap();
    check_call(client.lightning(), "https", "127.0.0.1:10009", "abcd");
    check_call(client.wallet(), "https", "127.0.0.1:10009", "abcd");
    check_call(client.signer(), "https", "127.0.0.1:10009", "abcd");
    check_call(client.peers(), "https", "127.0.0.1:10009", "abcd");
    check_call(client.versioner(), "https", "127.0.0.1:10009", "abcd");
    let pinned = client.lightning().channel().tls().unwrap().cert_verifier();
    assert_eq!(pinned.certs(), &vec![b"C1".to_vec()]);
    assert_eq!(pinned.verify_server_cert(&[b"C1".to_vec()]), Ok(()));
}

#[test]
fn without_a_certificate_the_channel_is_in_the_clear() {
    let macaroon = MacaroonSource::Memory("abcd".to_string());
    let mut client = connected("http://127.0.0.1:10009", None, macaroon);
    assert!(!client.lightning().channel().is_secure());
    assert!(client.lightning().channel().tls().is_none());
    check_call(client.lightning(), "http", "127.0.0.1:10009", "abcd");
    check_call(client.versioner(), "http", "127.0.0.1:10009", "abcd");
}

#[test]
fn without_a_certificate_only_the_macaroon_file_is_read() {
    let macaroon = MacaroonSource::File("/lnd/admin.macaroon".to_string());
    let awaiting = match start("http://127.0.0.1:10009", None, macaroon) {
        Step::ReadMacaroon(awaiting) => awaiting,
        other => panic!("expected the macaroon file to be read: {:?}", other),
    };
    assert_eq!(awaiting.path(), "/lnd/admin.macaroon");
    match awaiting.resume(Ok(vec![0x00, 0xff])) {
        Step::Connect(awaiting) => {
            assert!(!awaiting.channel().is_secure());
            assert_eq!(awaiting.interceptor().macaroon(), "00ff");
        },
        other => panic!("expected the channel to be made: {:?}", other),
    }
}

#[test]
fn a_server_with_another_certificate_is_refused_for_the_certificate() {
    let cert = Some(CertSource::Memory(C1.to_string()));
    let mut client = connected(
        "https://127.0.0.1:10009",
        cert,
        MacaroonSource::Memory("abcd".to_string()),
    );
    let pinned = client.lightning().channel().tls().unwrap().cert_verifier();
    assert_eq!(
        pinned.verify_server_cert(&[b"C2".to_vec()]),
        Err(PinningError::CertificateMismatch { position: 0 })
    );
    assert_eq!(
        pinned.verify_server_cert(&[b"C1".to_vec(), b"C1".to_vec()]),
        Err(PinningError::LengthMismatch { expected: 1, presented: 2 })
    );
}

#[test]
fn a_malformed_address_fails_before_any_file_is_asked_for() {
    for address in ["127.0.0.1:10009", "https://127.0.0.1:1000900", "", "ftp://127.0.0.1", "https://a b"] {
        let error = failure(connect(address, "/lnd/tls.cert", "/lnd/admin.macaroon"));
        assert_eq!(error.kind(), ErrorKind::InvalidAddress);
        assert_eq!(error.message(), format!("invalid address {}", address));
    }
}

#[test]
fn a_malformed_address_fails_before_the_certificate_is_parsed() {
    let error = unreliable_connect_from_memory("127.0.0.1:10009", "-----BEGIN CERTIFICATE-----\n", "abcd").unwrap_err();
    assert_eq!(error.kind(), ErrorKind::InvalidAddress);
    assert_eq!(error.message(), "invalid address 127.0.0.1:10009");
}

#[test]
fn an_attempt_from_memory_asks_for_no_file() {
    let awaiting = unreliable_connect_from_memory("https://127.0.0.1:10009", C1, "0a0b").unwrap();
    assert!(awaiting.channel().is_secure());
    assert_eq!(awaiting.interceptor().macaroon(), "0a0b");
    let pinned = awaiting.channel().tls().unwrap().cert_verifier();
    assert_eq!(pinned.certs(), &vec![b"C1".to_vec()]);
    let mut client = awaiting.resume(Ok(())).unwrap();
    check_call(client.signer(), "https", "127.0.0.1:10009", "0a0b");
}

#[test]
fn a_malformed_certificate_in_memory_ends_the_attempt() {
    let error = unreliable_connect_from_memory(
        "https://127.0.0.1:10009",
        "-----BEGIN CERTIFICATE-----\nQzE=\n",
        "abcd",
    )
    .unwrap_err();
    assert_eq!(error.kind(), ErrorKind::ParseCert);
    assert_eq!(error.message(), "failed to parse certificate ");
}

#[test]
fn an_unreadable_certificate_file_ends_the_attempt() {
    let step = connect("https://127.0.0.1:10009", "/lnd/tls.cert", "/lnd/admin.macaroon");
    let awaiting = match step {
        Step::ReadCert(awaiting) => awaiting,
        other => panic!("expected the certificate file to be read first: {:?}", other),
    };
    let error = failure(awaiting.resume(Err("No such file or directory".to_string())));
    assert_eq!(error.kind(), ErrorKind::ReadFile);
    assert_eq!(error.message(), "failed to read file /lnd/tls.cert");
    assert_eq!(error.source(), "No such file or directory");
}

#[test]
fn a_malformed_certificate_file_ends_the_attempt() {
    let step = connect("https://127.0.0.1:10009", "/lnd/tls.cert", "/lnd/admin.macaroon");
    let awaiting = match step {
        Step::ReadCert(awaiting) => awaiting,
        other => panic!("expected the certificate file to be read first: {:?}", other),
    };
    let error = failure(awaiting.resume(Ok(b"-----BEGIN CERTIFICATE-----\n@@@@\n-----END CERTIFICATE-----\n".to_vec())));
    assert_eq!(error.kind(), ErrorKind::ParseCert);
    assert_eq!(error.message(), "failed to parse certificate /lnd/tls.cert");
}

#[test]
fn an_unreadable_macaroon_file_ends_the_attempt() {
    let cert = Some(CertSource::Memory(C1.to_string()));
    let macaroon = MacaroonSource::File("/lnd/admin.macaroon".to_string());
    let awaiting = match start("https://127.0.0.1:10009", cert, macaroon) {
        Step::ReadMacaroon(awaiting) => awaiting,
        other => panic!("expected the macaroon file to be read: {:?}", other),
    };
    let error = failure(awaiting.resume(Err("Permission denied".to_string())));
    assert_eq!(error.kind(), ErrorKind::ReadFile);
    assert_eq!(error.message(), "failed to read file /lnd/admin.macaroon");
    assert_eq!(error.source(), "Permission denied");
}

#[test]
fn a_refused_configuration_ends_the_attempt() {
    let cert = Some(CertSource::Memory(C1.to_string()));
    let macaroon = MacaroonSource::Memory("abcd".to_string());
    let awaiting = match start("https://127.0.0.1:10009", cert, macaroon) {
        Step::Connect(awaiting) => awaiting,
        other => panic!("expected the channel to be made: {:?}", other),
    };
    let error = awaiting.resume(Err(TransportFailure::TlsConfig("bad certificate".to_string()))).unwrap_err();
    assert_eq!(error.kind(), ErrorKind::TlsConfig);
    assert_eq!(error.message(), "failed to configure TLS");
    assert_eq!(error.source(), "bad certificate");
}

#[test]
fn an_unreachable_node_ends_the_attempt() {
    let macaroon = MacaroonSource::Memory("abcd".to_string());
    let awaiting = match start("http://127.0.0.1:10009", None, macaroon) {
        Step::Connect(awaiting) => awaiting,
        other => panic!("expected the channel to be made: {:?}", other),
    };
    let error = awaiting.resume(Err(TransportFailure::Connect("connection refused".to_string()))).unwrap_err();
    assert_eq!(error.kind(), ErrorKind::Connect);
    assert_eq!(error.message(), "failed to connect to http://127.0.0.1:10009");
    assert_eq!(error.source(), "connection refused");
}

#[test]
fn an_attempt_can_end_with_the_client_of_one_service() {
    let awaiting = unreliable_connect_from_memory("https://127.0.0.1:10009", C1, "abcd").unwrap();
    let client = awaiting.connected_to(Service::Versioner);
    assert_eq!(client.service(), Service::Versioner);
    check_call(&client, "https", "127.0.0.1:10009", "abcd");
}

#[test]
fn an_attempt_goes_by_what_the_parser_made_of_the_address() {
    let parts = UriParts {
        scheme: Some("https".to_string()),
        authority: Some("node:10009".to_string()),
        host: Some("node".to_string()),
        port: Some(10009),
    };
    let cert = Some(CertSource::File("tls.cert".to_string()));
    let macaroon = MacaroonSource::File("admin.macaroon".to_string());
    match start_with("https://node:10009", Ok(parts), cert, macaroon) {
        Step::ReadCert(awaiting) => assert_eq!(awaiting.path(), "tls.cert"),
        other => panic!("expected the certificate file to be read first: {:?}", other),
    }
    let cert = Some(CertSource::File("tls.cert".to_string()));
    let macaroon = MacaroonSource::File("admin.macaroon".to_string());
    let error = failure(start_with("nowhere", Err("empty string".to_string()), cert, macaroon));
    assert_eq!(error.kind(), ErrorKind::InvalidAddress);
    assert_eq!(error.message(), "invalid address nowhere");
    assert_eq!(error.source(), "empty string");
}
