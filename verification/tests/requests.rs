use tonic_lnd::address::Address;
use tonic_lnd::channel::{Channel, RequestTarget};
use tonic_lnd::client::{Client, Service, ServiceClient};
use tonic_lnd::interceptor::Metadata;
use tonic_lnd::tls::{do_config, CertVerifier};
use tonic_lnd::MacaroonInterceptor;

fn target(scheme: Option<&str>, authority: Option<&str>, path: &str) -> RequestTarget {
    RequestTarget {
        scheme: scheme.map(|text| text.to_string()),
        authority: authority.map(|text| text.to_string()),
        path_and_query: path.to_string(),
    }
}

#[test]
fn metadata_keeps_one_value_for_each_key() {
    let metadata = Metadata::new();
    assert_eq!(metadata.len(), 0);
    assert_eq!(metadata.get("macaroon"), None);
    let metadata = metadata.insert("macaroon", "00".to_string());
    let metadata = metadata.insert("trace", "on".to_string());
    assert_eq!(metadata.len(), 2);
    let metadata = metadata.insert("macaroon", "ff".to_string());
    assert_eq!(metadata.len(), 2);
    assert_eq!(metadata.get("macaroon"), Some(&"ff".to_string()));
    assert_eq!(metadata.get("trace"), Some(&"on".to_string()));
    assert_eq!(metadata.get("Macaroon"), None);
}

#[test]
fn the_interceptor_enters_the_macaroon() {
    let interceptor = MacaroonInterceptor::from_bytes(&[0xAB, 0xCD]);
    assert_eq!(interceptor.macaroon(), "abcd");
    assert!(interceptor.is_sendable());
    let sent = interceptor.call(Metadata::new());
    assert_eq!(sent.len(), 1);
    assert_eq!(sent.get("macaroon"), Some(&"abcd".to_string()));
}

#[test]
fn the_interceptor_replaces_a_macaroon_and_keeps_the_rest() {
    let interceptor = MacaroonInterceptor::new("0102".to_string());
    let request = Metadata::new()
        .insert("grpc-timeout", "5S".to_string())
        .insert("macaroon", "stale".to_string());
    let sent = interceptor.call(request);
    assert_eq!(sent.len(), 2);
    assert_eq!(sent.get("macaroon"), Some(&"0102".to_string()));
    assert_eq!(sent.get("grpc-timeout"), Some(&"5S".to_string()));
}

#[test]
fn every_call_gets_the_same_macaroon() {
    let interceptor = MacaroonInterceptor::from_bytes(&[1, 2, 3]);
    let copy = interceptor.clone();
    let first = interceptor.call(Metadata::new());
    let second = interceptor.call(Metadata::new());
    let third = copy.call(Metadata::new());
    assert_eq!(first.get("macaroon"), Some(&"010203".to_string()));
    assert_eq!(second.get("macaroon"), Some(&"010203".to_string()));
    assert_eq!(third.get("macaroon"), Some(&"010203".to_string()));
}

#[test]
fn a_macaroon_with_a_control_character_cannot_be_sent() {
    assert!(!MacaroonInterceptor::new("ab\ncd".to_string()).is_sendable());
    assert!(!MacaroonInterceptor::new("ab\u{7f}".to_string()).is_sendable());
    assert!(!MacaroonInterceptor::new("\u{0}".to_string()).is_sendable());
    assert!(MacaroonInterceptor::new("ab\tcd".to_string()).is_sendable());
    assert!(MacaroonInterceptor::new("".to_string()).is_sendable());
    assert!(MacaroonInterceptor::new("ABCDEF0123456789".to_string()).is_sendable());
}

#[test]
fn any_encoded_macaroon_can_be_sent() {
    let all: Vec<u8> = (0..=255u8).collect();
    assert!(MacaroonInterceptor::from_bytes(&all).is_sendable());
}

#[test]
fn the_channel_directs_every_request_to_its_node() {
    let address = Address::parse("https://127.0.0.1:10009").unwrap();
    let channel = Channel::new(address, None);
    let sent = channel.rewrite(target(Some("http"), Some("localhost"), "/lnrpc.Lightning/GetInfo"));
    assert_eq!(sent.scheme, Some("https".to_string()));
    assert_eq!(sent.authority, Some("127.0.0.1:10009".to_string()));
    assert_eq!(sent.path_and_query, "/lnrpc.Lightning/GetInfo");
    let sent = channel.rewrite(target(None, None, "/verrpc.Versioner/GetVersion?x=1"));
    assert_eq!(sent.scheme, Some("https".to_string()));
    assert_eq!(sent.authority, Some("127.0.0.1:10009".to_string()));
    assert_eq!(sent.path_and_query, "/verrpc.Versioner/GetVersion?x=1");
}

#[test]
fn the_path_of_the_address_is_not_sent() {
    let address = Address::parse("http://localhost:8080/prefix").unwrap();
    let channel = Channel::new(address, None);
    let sent = channel.rewrite(target(None, None, "/lnrpc.Lightning/GetInfo"));
    assert_eq!(sent.scheme, Some("http".to_string()));
    assert_eq!(sent.authority, Some("localhost:8080".to_string()));
    assert_eq!(sent.path_and_query, "/lnrpc.Lightning/GetInfo");
}

#[test]
fn a_channel_is_secure_with_a_configuration_only() {
    let address = Address::parse("https://127.0.0.1:10009").unwrap();
    let clear = Channel::new(address.clone(), None);
    assert!(!clear.is_secure());
    assert!(clear.tls().is_none());
    let config = do_config(CertVerifier::new(vec![vec![1, 2, 3]])).unwrap();
    let secure = Channel::new(address, Some(config));
    assert!(secure.is_secure());
    assert_eq!(secure.tls().unwrap().cert_verifier().certs(), &vec![vec![1u8, 2, 3]]);
    let copy = secure.clone();
    assert!(copy.is_secure());
    assert_eq!(copy.address().authority(), "127.0.0.1:10009");
    assert_eq!(copy.tls().unwrap().cert_verifier().certs(), &vec![vec![1u8, 2, 3]]);
}

#[test]
fn a_service_client_prepares_its_calls() {
    let address = Address::parse("https://127.0.0.1:10009").unwrap();
    let client = ServiceClient::with_interceptor(
        Service::Signer,
        Channel::new(address, None),
        MacaroonInterceptor::from_bytes(&[0xAB, 0xCD]),
    );
    assert_eq!(client.service(), Service::Signer);
    let metadata = Metadata::new().insert("trace", "on".to_string());
    let outgoing = client.prepare(target(None, None, "/signrpc.Signer/SignMessage"), metadata);
    assert_eq!(outgoing.target.scheme, Some("https".to_string()));
    assert_eq!(outgoing.target.authority, Some("127.0.0.1:10009".to_string()));
    assert_eq!(outgoing.target.path_and_query, "/signrpc.Signer/SignMessage");
    assert_eq!(outgoing.metadata.get("macaroon"), Some(&"abcd".to_string()));
    assert_eq!(outgoing.metadata.get("trace"), Some(&"on".to_string()));
}

#[test]
fn a_client_has_one_client_for_each_service() {
    let address = Address::parse("https://127.0.0.1:10009").unwrap();
    let mut client = Client::new(Channel::new(address, None), MacaroonInterceptor::from_bytes(&[7]));
    assert_eq!(client.lightning().service(), Service::Lightning);
    assert_eq!(client.wallet().service(), Service::WalletKit);
    assert_eq!(client.signer().service(), Service::Signer);
    assert_eq!(client.peers().service(), Service::Peers);
    assert_eq!(client.versioner().service(), Service::Versioner);
    assert_eq!(client.peers().interceptor().macaroon(), "07");
    assert_eq!(client.versioner().channel().address().authority(), "127.0.0.1:10009");
    let mut copy = client.clone();
    assert_eq!(copy.signer().interceptor().macaroon(), "07");
}
