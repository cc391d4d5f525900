use apprelay::arena::Arena;
use apprelay::config::lists_no_supported_suite;
use apprelay::context::{
    decapsulate_response_recorded, encapsulate_request_recorded, release_request,
    request_from_outcome, response_from_outcome,
};
use apprelay::engine::REQUEST_HEADER_LEN;
use apprelay::{
    decapsulate_response, encapsulate_request, Client, ClientError, ErrorChannel, ErrorKind,
};
use ohttp::hpke::{Aead, Kdf, Kem};
use ohttp::{KeyConfig, Server, SymmetricSuite};

fn gateway() -> (Server, Vec<u8>) {
    let config = KeyConfig::new(
        1,
        Kem::X25519Sha256,
        vec![SymmetricSuite::new(Kdf::HkdfSha256, Aead::Aes128Gcm)],
    )
    .unwrap();
    let server = Server::new(config).unwrap();
    let encoded = server.config().encode().unwrap();
    (server, encoded)
}

fn answer(server: &Server, enc_request: &[u8], expected: &[u8], reply: &[u8]) -> Vec<u8> {
    let (request, server_response) = server.decapsulate(enc_request).unwrap();
    assert_eq!(&request[..], expected);
    server_response.encapsulate(reply).unwrap()
}

#[test]
fn round_trip_returns_the_gateway_reply() {
    let (server, config) = gateway();
    let msg = b"GET /index.html".to_vec();
    let context = encapsulate_request(&config, &msg).ok().unwrap();
    let enc_response = answer(&server, context.message(), &msg, b"hello back");
    let response = decapsulate_response(context, &enc_response).ok().unwrap();
    assert_eq!(response.message(), &b"hello back".to_vec());
    assert_eq!(response.message_len(), 10);
    assert_eq!(response.into_message(), b"hello back".to_vec());
}

#[test]
fn round_trip_of_the_message_itself() {
    let (server, config) = gateway();
    let msg = vec![0u8, 1, 2, 3, 250, 251];
    let context = encapsulate_request(&config, &msg).ok().unwrap();
    let enc_response = answer(&server, context.message(), &msg, &msg);
    let response = decapsulate_response(context, &enc_response).ok().unwrap();
    assert_eq!(response.message(), &msg);
}

#[test]
fn ping_has_the_expected_length_and_comes_back() {
    let (server, config) = gateway();
    let mut client = Client::new();
    let mut channel = ErrorChannel::new();
    let h = client.encapsulate(&mut channel, &config, b"ping").unwrap();
    // header, X25519 encapsulated key, AES-128-GCM tag, message
    assert_eq!(client.request_message_len(h), Some(7 + 32 + 16 + 4));
    let enc_request = client.request_message(h).unwrap().clone();
    let enc_response = answer(&server, &enc_request, b"ping", b"ping");
    let g = client.decapsulate(&mut channel, h, &enc_response).unwrap();
    assert_eq!(client.response_message(g), Some(&b"ping".to_vec()));
    assert_eq!(client.response_message_len(g), Some(4));
    assert!(channel.last_kind().is_none());
    assert!(client.release_response(g));
    assert_eq!(client.response_message(g), None);
}

#[test]
fn encapsulated_request_is_longer_than_the_message() {
    let (_server, config) = gateway();
    let msg = vec![7u8; 100];
    let context = encapsulate_request(&config, &msg).ok().unwrap();
    assert!(context.message_len() >= msg.len() + REQUEST_HEADER_LEN);
    assert_ne!(context.message(), &msg);
    release_request(context);
}

#[test]
fn empty_config_is_an_initialization_error() {
    let r = encapsulate_request(&[], b"ping");
    assert!(matches!(r, Err(ClientError::RequestContextInitialization(_))));
}

#[test]
fn malformed_config_is_recorded_and_keeps_nothing() {
    let mut client = Client::new();
    let mut channel = ErrorChannel::new();
    for config in [vec![], vec![1u8, 0, 0x20], vec![0xffu8; 9]] {
        assert_eq!(client.encapsulate(&mut channel, &config, b"ping"), None);
        assert_eq!(channel.last_kind(), Some(ErrorKind::RequestContextInitialization));
    }
    let mut other = ErrorChannel::new();
    assert!(encapsulate_request_recorded(&mut other, &[1, 2, 3], b"x").is_none());
    assert!(matches!(
        other.last_error(),
        Some(ClientError::RequestContextInitialization(_))
    ));
}

#[test]
fn truncated_config_is_rejected() {
    let (_server, config) = gateway();
    let r = encapsulate_request(&config[..config.len() - 1], b"ping");
    assert_eq!(r.err().map(|e| e.kind()), Some(ErrorKind::RequestContextInitialization));
}

#[test]
fn decapsulate_failure_consumes_the_request() {
    let (_server, config) = gateway();
    let mut client = Client::new();
    let mut channel = ErrorChannel::new();
    let h = client.encapsulate(&mut channel, &config, b"ping").unwrap();
    assert_eq!(client.decapsulate(&mut channel, h, &[0u8; 40]), None);
    assert_eq!(channel.last_kind(), Some(ErrorKind::DecapsulationFailed));
    assert_eq!(client.request_message(h), None);
    assert_eq!(client.request_message_len(h), None);
    assert_eq!(client.decapsulate(&mut channel, h, &[0u8; 40]), None);
    assert_eq!(channel.last_kind(), Some(ErrorKind::InvalidArgument));
    assert!(!client.release_request(h));
}

#[test]
fn decapsulate_success_consumes_the_request() {
    let (server, config) = gateway();
    let mut client = Client::new();
    let mut channel = ErrorChannel::new();
    let h = client.encapsulate(&mut channel, &config, b"abc").unwrap();
    let enc_request = client.request_message(h).unwrap().clone();
    let enc_response = answer(&server, &enc_request, b"abc", b"def");
    let g = client.decapsulate(&mut channel, h, &enc_response).unwrap();
    assert_eq!(client.request_message(h), None);
    assert_eq!(client.decapsulate(&mut channel, h, &enc_response), None);
    assert_eq!(channel.last_kind(), Some(ErrorKind::InvalidArgument));
    assert_eq!(client.response_message(g), Some(&b"def".to_vec()));
}

#[test]
fn empty_response_fails_to_decapsulate() {
    let (_server, config) = gateway();
    let context = encapsulate_request(&config, b"ping").ok().unwrap();
    let r = decapsulate_response(context, &[]);
    assert!(matches!(r, Err(ClientError::DecapsulationFailed(_))));
    let context = encapsulate_request(&config, b"ping").ok().unwrap();
    let mut channel = ErrorChannel::new();
    assert!(decapsulate_response_recorded(&mut channel, context, &[]).is_none());
    assert_eq!(channel.last_kind(), Some(ErrorKind::DecapsulationFailed));
}

#[test]
fn tampered_response_fails_to_decapsulate() {
    let (server, config) = gateway();
    let context = encapsulate_request(&config, b"ping").ok().unwrap();
    let mut enc_response = answer(&server, context.message(), b"ping", b"pong");
    let last = enc_response.len() - 1;
    enc_response[last] ^= 1;
    let r = decapsulate_response(context, &enc_response);
    assert_eq!(r.err().map(|e| e.kind()), Some(ErrorKind::DecapsulationFailed));
}

#[test]
fn releasing_a_fresh_request_leaves_the_channel_alone() {
    let (_server, config) = gateway();
    let mut client = Client::new();
    let mut channel = ErrorChannel::new();
    let h = client.encapsulate(&mut channel, &config, b"ping").unwrap();
    assert!(client.release_request(h));
    assert!(channel.last_kind().is_none());
    assert_eq!(client.request_message(h), None);
    assert!(!client.release_request(h));
    assert!(channel.last_kind().is_none());

    assert_eq!(client.encapsulate(&mut channel, &[], b"ping"), None);
    let h = client.encapsulate(&mut channel, &config, b"ping").unwrap();
    assert!(client.release_request(h));
    assert_eq!(channel.last_kind(), Some(ErrorKind::RequestContextInitialization));
}

#[test]
fn separate_channels_do_not_share_failures() {
    let (_server, config) = gateway();
    let mut client = Client::new();
    let mut first = ErrorChannel::new();
    let mut second = ErrorChannel::new();
    assert_eq!(client.encapsulate(&mut first, &[9, 9], b"ping"), None);
    let h = client.encapsulate(&mut second, &config, b"ping").unwrap();
    assert!(second.last_kind().is_none());
    assert_eq!(first.last_kind(), Some(ErrorKind::RequestContextInitialization));
    assert!(client.release_request(h));
}

#[test]
fn stale_handle_is_not_revived_by_slot_reuse() {
    let (_server, config) = gateway();
    let mut client = Client::new();
    let mut channel = ErrorChannel::new();
    let h = client.encapsulate(&mut channel, &config, b"one").unwrap();
    assert!(client.release_request(h));
    let g = client.encapsulate(&mut channel, &config, b"two").unwrap();
    assert_eq!(g.index, h.index);
    assert_eq!(g.generation, h.generation + 1);
    assert_eq!(client.request_message(h), None);
    assert_eq!(client.request_message_len(g), Some(7 + 32 + 16 + 3));
}

#[test]
fn arena_issues_distinct_handles() {
    let mut arena: Arena<u32> = Arena::new();
    let a = arena.insert(10);
    let b = arena.insert(20);
    assert_ne!(a, b);
    assert_eq!(arena.get_ref(a), Some(&10));
    assert_eq!(arena.take(a), Some(10));
    assert_eq!(arena.take(a), None);
    let c = arena.insert(30);
    assert_eq!(c.index, a.index);
    assert_ne!(c, a);
    assert_eq!(arena.get_ref(a), None);
    assert_eq!(arena.get_ref(b), Some(&20));
    assert_eq!(arena.get_ref(c), Some(&30));
}

#[test]
fn settle_keeps_success_and_records_failure() {
    let mut channel = ErrorChannel::new();
    let ok: Result<u8, ClientError> = Ok(5);
    assert_eq!(channel.settle(ok), Some(5));
    assert!(channel.last_error().is_none());
    let err: Result<u8, ClientError> = Err(ClientError::InvalidArgument("length".to_string()));
    assert_eq!(channel.settle(err), None);
    assert!(matches!(channel.last_error(), Some(ClientError::InvalidArgument(s)) if s == "length"));
    channel.record(ClientError::InvalidArgument("other".to_string()));
    assert!(matches!(channel.last_error(), Some(ClientError::InvalidArgument(s)) if s == "other"));
}

#[test]
fn outcomes_are_classified() {
    let r = response_from_outcome(Ok(vec![1, 2, 3]));
    assert_eq!(r.ok().unwrap().message(), &vec![1u8, 2, 3]);
    let r = response_from_outcome(Err(ohttp::Error::Truncated));
    assert!(matches!(r, Err(ClientError::DecapsulationFailed(ohttp::Error::Truncated))));
    let r = request_from_outcome(Err(ohttp::Error::Internal));
    assert!(matches!(r, Err(ClientError::EncapsulationFailed(ohttp::Error::Internal))));
    assert_eq!(
        ClientError::EncapsulationFailed(ohttp::Error::Internal).kind(),
        ErrorKind::EncapsulationFailed
    );
}

fn config_with_suites(suites: &[u8]) -> Vec<u8> {
    let mut b = vec![1u8, 0x00, 0x20];
    b.extend_from_slice(&[9u8; 32]);
    b.push((suites.len() >> 8) as u8);
    b.push(suites.len() as u8);
    b.extend_from_slice(suites);
    b
}

#[test]
fn config_without_a_supported_suite_is_refused_without_panicking() {
    let config = config_with_suites(&[0x00, 0x02, 0x00, 0x01]);
    assert!(lists_no_supported_suite(&config));
    let r = encapsulate_request(&config, b"ping");
    assert!(matches!(r, Err(ClientError::NoSupportedSuite)));
    let mut client = Client::new();
    let mut channel = ErrorChannel::new();
    assert_eq!(client.encapsulate(&mut channel, &config, b"ping"), None);
    assert_eq!(channel.last_kind(), Some(ErrorKind::RequestContextInitialization));
}

#[test]
fn suite_check_finds_a_supported_suite_anywhere_in_the_list() {
    let (_server, config) = gateway();
    assert!(!lists_no_supported_suite(&config));
    assert!(!lists_no_supported_suite(&config_with_suites(&[0, 2, 0, 1, 0, 1, 0, 3])));
    assert!(!lists_no_supported_suite(&config_with_suites(&[0, 1, 0, 1])));
    assert!(lists_no_supported_suite(&config_with_suites(&[0, 1, 0, 2, 0, 3, 0, 1])));
    assert!(!lists_no_supported_suite(&config_with_suites(&[])));
    assert!(!lists_no_supported_suite(&config_with_suites(&[0, 2, 0, 1, 0])));
    assert!(!lists_no_supported_suite(&[]));
    let mut unknown_kem = config_with_suites(&[0, 2, 0, 1]);
    unknown_kem[2] = 0x21;
    assert!(!lists_no_supported_suite(&unknown_kem));
    let mut trailing = config_with_suites(&[0, 2, 0, 1]);
    trailing.push(0);
    assert!(!lists_no_supported_suite(&trailing));
}

#[test]
fn config_with_a_supported_suite_after_an_unsupported_one_passes_the_check() {
    let (server, config) = gateway();
    let mut mixed = config[..config.len() - 6].to_vec();
    mixed.extend_from_slice(&[0, 8, 0, 2, 0, 1, 0, 1, 0, 1]);
    assert!(!lists_no_supported_suite(&mixed));
    let context = encapsulate_request(&mixed, b"ping").ok().unwrap();
    let enc_response = answer(&server, context.message(), b"ping", b"ok");
    let response = decapsulate_response(context, &enc_response).ok().unwrap();
    assert_eq!(response.message(), &b"ok".to_vec());
}
