use tunl::aead::decrypt;
use tunl::config::Config;
use tunl::header::{
    aead_decrypt, auth_key, decode, header_length, parse_command, HandshakeError, PREAMBLE_LEN,
};
use tunl::relay::{candidates, endpoint, is_fallback};
use tunl::request::{encode_command, encode_request, seal_request};
use tunl::response::{data_secret, encode_response, response_key_material};
use tunl::salt::Label;
use tunl::stream::{Inbound, ReadStep, RelayBuffer};
use tunl::vmess::{Action, Event, Phase, RelayError, Stage, VmessStream};

const UUID: [u8; 16] = [
    0x0f, 0xa1, 0x22, 0x33, 0x44, 0x55, 0x46, 0x77, 0x88, 0x99, 0xaa, 0xbb, 0xcc, 0xdd, 0xee, 0xff,
];

fn domain_field(name: &str) -> Vec<u8> {
    let mut f = vec![0x02u8, name.len() as u8];
    f.extend_from_slice(name.as_bytes());
    f
}

fn request(command: u8, port: u16, addr_field: &[u8]) -> Vec<u8> {
    encode_request(
        &UUID,
        &[0x11u8; 16],
        &[0x22u8; 8],
        &[0x33u8; 16],
        &[0x44u8; 16],
        &[0xa7u8, 1, 2, 3],
        command,
        port,
        addr_field,
        &[0xeeu8, 0xee, 0xee, 1, 2, 3, 4],
    )
    .unwrap()
}

fn config(fallbacks: &[&str]) -> Config {
    Config {
        uuid: UUID,
        host: "host.example".to_string(),
        proxy_ip: fallbacks.iter().map(|s| s.to_string()).collect(),
        redirect_url: "https://example.com".to_string(),
        display_link: false,
    }
}

fn handshake(stream: &mut VmessStream, frame: &[u8]) -> Action {
    let n = match stream.process(Event::Bytes(frame[..PREAMBLE_LEN].to_vec())) {
        Action::Read(n) => n,
        _ => panic!("the preamble was not accepted"),
    };
    assert_eq!(n, frame.len() - PREAMBLE_LEN);
    assert_eq!(stream.phase(), Phase::Handshaking);
    match stream.process(Event::Bytes(frame[PREAMBLE_LEN..].to_vec())) {
        Action::SendAck(_) => {}
        _ => panic!("the command was not accepted"),
    }
    assert_eq!(stream.phase(), Phase::Handshaking);
    stream.process(Event::Written)
}

fn expect_connect(action: Action, host: &str, port: u16) {
    match action {
        Action::Connect(h, p) => {
            assert_eq!(h, host);
            assert_eq!(p, port);
        }
        _ => panic!("no connection was asked for"),
    }
}

#[test]
fn auth_key_is_md5_of_secret_and_constant() {
    let mut data = UUID.to_vec();
    data.extend_from_slice(b"c48619fe-8f02-49e0-b9e9-edf763e17e21");
    assert_eq!(auth_key(&UUID), tunl::digest::md5(&vec![data]));
    assert_eq!(auth_key(&UUID).len(), 16);
}

#[test]
fn request_round_trip_recovers_the_fields() {
    let frame = request(0x01, 443, &domain_field("example.com"));
    let (pre, body) = frame.split_at(PREAMBLE_LEN);
    assert_eq!(&pre[..16], &[0x11u8; 16]);
    assert_eq!(&pre[34..], &[0x22u8; 8]);
    let cmd = decode(&UUID, pre, body).unwrap();
    assert_eq!(cmd.version, 1);
    assert_eq!(cmd.iv, vec![0x33u8; 16]);
    assert_eq!(cmd.key, vec![0x44u8; 16]);
    assert_eq!(cmd.options, vec![0xa7u8, 1, 2, 3]);
    assert_eq!(cmd.command, 0x01);
    assert!(cmd.is_tcp());
    assert_eq!(cmd.port, 443);
    assert_eq!(cmd.address, "example.com");
}

#[test]
fn request_round_trip_other_addresses() {
    let frame = request(0x02, 53, &[0x01, 8, 8, 4, 4]);
    let cmd = decode(&UUID, &frame[..PREAMBLE_LEN], &frame[PREAMBLE_LEN..]).unwrap();
    assert_eq!(cmd.address, "8.8.4.4");
    assert_eq!(cmd.port, 53);
    assert!(!cmd.is_tcp());
    let mut v6 = vec![0x03u8];
    v6.extend_from_slice(&[0x20, 0x01, 0x0d, 0xb8, 0, 0, 0, 0, 0, 0, 0, 0, 0, 0, 0, 1]);
    let frame = request(0x01, 65535, &v6);
    let cmd = decode(&UUID, &frame[..PREAMBLE_LEN], &frame[PREAMBLE_LEN..]).unwrap();
    assert_eq!(cmd.address, "2001:db8::1");
    assert_eq!(cmd.port, 65535);
}

#[test]
fn header_length_is_the_command_length() {
    let command = encode_command(
        &[1u8; 16],
        &[2u8; 16],
        &[0u8; 4],
        1,
        0x1234,
        &domain_field("a.b"),
        &[],
    );
    assert_eq!(command.len(), 45);
    assert_eq!(&command[38..40], &[0x12, 0x34]);
    let frame = seal_request(&UUID, &[5u8; 16], &[6u8; 8], &command).unwrap();
    assert_eq!(frame.len(), 42 + 45 + 16);
    assert_eq!(header_length(&UUID, &frame[..42]), Ok(45));
    assert_eq!(aead_decrypt(&UUID, &frame[..42], &frame[42..]), Ok(command));
}

#[test]
fn seal_request_refuses_long_commands() {
    assert!(seal_request(&UUID, &[5u8; 16], &[6u8; 8], &vec![0u8; 65536]).is_none());
    assert!(seal_request(&UUID, &[5u8; 16], &[6u8; 8], &vec![0u8; 65535]).is_some());
}

#[test]
fn every_bit_flip_is_an_authentication_failure() {
    let frame = request(0x01, 443, &domain_field("example.com"));
    for i in 0..frame.len() {
        for bit in 0..8 {
            let mut bad = frame.clone();
            bad[i] ^= 1 << bit;
            let r = decode(&UUID, &bad[..PREAMBLE_LEN], &bad[PREAMBLE_LEN..]);
            assert_eq!(r.err(), Some(HandshakeError::Authentication));
        }
    }
}

#[test]
fn wrong_secret_is_an_authentication_failure() {
    let frame = request(0x01, 443, &domain_field("example.com"));
    let mut other = UUID;
    other[0] ^= 1;
    assert_eq!(
        header_length(&other, &frame[..PREAMBLE_LEN]),
        Err(HandshakeError::Authentication)
    );
}

#[test]
fn short_reads_are_stream_errors() {
    let frame = request(0x01, 443, &domain_field("example.com"));
    assert_eq!(header_length(&UUID, &frame[..41]), Err(HandshakeError::Stream));
    assert_eq!(header_length(&UUID, &[]), Err(HandshakeError::Stream));
    let r = aead_decrypt(&UUID, &frame[..PREAMBLE_LEN], &frame[PREAMBLE_LEN..frame.len() - 1]);
    assert_eq!(r, Err(HandshakeError::Stream));
    let r = decode(&UUID, &frame[..PREAMBLE_LEN], &[]);
    assert_eq!(r.err(), Some(HandshakeError::Stream));
}

#[test]
fn bytes_behind_the_announced_length_are_ignored() {
    let mut frame = request(0x01, 443, &domain_field("example.com"));
    frame.extend_from_slice(&[1, 2, 3]);
    let cmd = decode(&UUID, &frame[..PREAMBLE_LEN], &frame[PREAMBLE_LEN..]).unwrap();
    assert_eq!(cmd.address, "example.com");
}

#[test]
fn parse_command_errors() {
    assert_eq!(parse_command(&[]).err(), Some(HandshakeError::Decode));
    let good = encode_command(&[1u8; 16], &[2u8; 16], &[0u8; 4], 1, 80, &[1, 1, 2, 3, 4], &[]);
    assert!(parse_command(&good).is_ok());
    let mut bad_version = good.clone();
    bad_version[0] = 2;
    assert_eq!(parse_command(&bad_version).err(), Some(HandshakeError::Authentication));
    assert_eq!(parse_command(&[2u8]).err(), Some(HandshakeError::Authentication));
    assert_eq!(parse_command(&good[..39]).err(), Some(HandshakeError::Decode));
    assert_eq!(parse_command(&good[..40]).err(), Some(HandshakeError::Decode));
    assert_eq!(parse_command(&good[..44]).err(), Some(HandshakeError::Decode));
    let mut bad_tag = good.clone();
    bad_tag[40] = 5;
    assert_eq!(parse_command(&bad_tag).err(), Some(HandshakeError::Decode));
}

#[test]
fn wrong_version_in_a_sealed_request() {
    let mut command =
        encode_command(&[1u8; 16], &[2u8; 16], &[0u8; 4], 1, 80, &[1, 1, 2, 3, 4], &[]);
    command[0] = 0;
    let frame = seal_request(&UUID, &[5u8; 16], &[6u8; 8], &command).unwrap();
    let r = decode(&UUID, &frame[..42], &frame[42..]);
    assert_eq!(r.err(), Some(HandshakeError::Authentication));
}

#[test]
fn response_header_opens_to_the_acknowledgment() {
    let frame = request(0x01, 443, &domain_field("example.com"));
    let cmd = decode(&UUID, &frame[..PREAMBLE_LEN], &frame[PREAMBLE_LEN..]).unwrap();
    let h = encode_response(&cmd).unwrap();
    assert_eq!(h.length.len(), 18);
    assert_eq!(h.payload.len(), 20);
    let key = data_secret(&cmd.key);
    let iv = data_secret(&cmd.iv);
    assert_eq!(key, tunl::digest::sha256(&vec![vec![0x44u8; 16]])[..16].to_vec());
    let len_key = response_key_material(&key, Label::ResponseLengthKey, 16);
    let len_iv = response_key_material(&iv, Label::ResponseLengthIv, 12);
    assert_eq!(decrypt(&len_key, &len_iv, &[], &h.length), Ok(vec![0x00u8, 0x04]));
    let pay_key = response_key_material(&key, Label::ResponsePayloadKey, 16);
    let pay_iv = response_key_material(&iv, Label::ResponsePayloadIv, 12);
    assert_eq!(decrypt(&pay_key, &pay_iv, &[], &h.payload), Ok(vec![0xa7u8, 0, 0, 0]));
    assert!(decrypt(&pay_key, &pay_iv, &[], &h.length).is_err());
}

#[test]
fn response_material_is_derived_from_the_label_alone() {
    let secret = vec![9u8; 16];
    let full = tunl::kdf::derive(&secret, &vec![b"AEAD Resp Header Len Key".to_vec()]);
    assert_eq!(
        response_key_material(&secret, Label::ResponseLengthKey, 16),
        full[..16].to_vec()
    );
}

#[test]
fn candidate_order() {
    let fallbacks = vec!["1.2.3.4:8080".to_string(), "5.6.7.8".to_string()];
    let target = "10.0.0.1".to_string();
    let list = candidates(&target, &fallbacks);
    assert_eq!(list, vec!["10.0.0.1", "1.2.3.4:8080", "5.6.7.8"]);
    let ends: Vec<(String, u16)> = list.iter().map(|c| endpoint(c, &fallbacks, 80)).collect();
    assert_eq!(
        ends,
        vec![
            ("10.0.0.1".to_string(), 80),
            ("1.2.3.4".to_string(), 8080),
            ("5.6.7.8".to_string(), 80)
        ]
    );
    assert_eq!(candidates(&target, &Vec::new()), vec!["10.0.0.1"]);
}

#[test]
fn endpoint_rules() {
    let fallbacks = vec![
        "host:abc".to_string(),
        "a:b:99".to_string(),
        "h:70000".to_string(),
        "plain".to_string(),
        "h:".to_string(),
    ];
    assert_eq!(endpoint(&"host:abc".to_string(), &fallbacks, 80), ("host".to_string(), 80));
    assert_eq!(endpoint(&"a:b:99".to_string(), &fallbacks, 80), ("a:b".to_string(), 99));
    assert_eq!(endpoint(&"h:70000".to_string(), &fallbacks, 81), ("h".to_string(), 81));
    assert_eq!(endpoint(&"plain".to_string(), &fallbacks, 82), ("plain".to_string(), 82));
    assert_eq!(endpoint(&"h:".to_string(), &fallbacks, 83), ("h".to_string(), 83));
    assert_eq!(endpoint(&"x:1".to_string(), &fallbacks, 84), ("x:1".to_string(), 84));
    assert!(is_fallback(&"plain".to_string(), &fallbacks));
    assert!(!is_fallback(&"plai".to_string(), &fallbacks));
}

#[test]
fn tcp_relay_end_to_end() {
    let frame = request(0x01, 443, &domain_field("example.com"));
    let mut stream = VmessStream::new(config(&["1.2.3.4:8080"]));
    assert_eq!(stream.phase(), Phase::Handshaking);
    let n = match stream.process(Event::Bytes(frame[..PREAMBLE_LEN].to_vec())) {
        Action::Read(n) => n,
        _ => panic!("the preamble was not accepted"),
    };
    assert_eq!(n, frame.len() - PREAMBLE_LEN);
    let ack = match stream.process(Event::Bytes(frame[PREAMBLE_LEN..].to_vec())) {
        Action::SendAck(h) => h,
        _ => panic!("the command was not accepted"),
    };
    let key = data_secret(&[0x44u8; 16]);
    let iv = data_secret(&[0x33u8; 16]);
    let len_key = response_key_material(&key, Label::ResponseLengthKey, 16);
    let len_iv = response_key_material(&iv, Label::ResponseLengthIv, 12);
    assert_eq!(decrypt(&len_key, &len_iv, &[], &ack.length), Ok(vec![0u8, 4]));
    let pay_key = response_key_material(&key, Label::ResponsePayloadKey, 16);
    let pay_iv = response_key_material(&iv, Label::ResponsePayloadIv, 12);
    assert_eq!(decrypt(&pay_key, &pay_iv, &[], &ack.payload), Ok(vec![0xa7u8, 0, 0, 0]));
    assert_eq!(stream.phase(), Phase::Handshaking);
    expect_connect(stream.process(Event::Written), "example.com", 443);
    assert_eq!(stream.phase(), Phase::Relaying);
    assert!(matches!(stream.process(Event::Connected), Action::Copy));
    assert_eq!(stream.stage, Stage::Copying);
    assert!(matches!(stream.process(Event::CopyDone), Action::Done));
    assert_eq!(stream.phase(), Phase::Closed);
}

#[test]
fn fallback_after_two_failures() {
    let frame = request(0x01, 80, &[0x01, 10, 0, 0, 1]);
    let mut stream = VmessStream::new(config(&["1.2.3.4:8080", "5.6.7.8"]));
    expect_connect(handshake(&mut stream, &frame), "10.0.0.1", 80);
    expect_connect(
        stream.process(Event::ConnectFailed("refused".to_string())),
        "1.2.3.4",
        8080,
    );
    expect_connect(
        stream.process(Event::ConnectFailed("socket not open".to_string())),
        "5.6.7.8",
        80,
    );
    assert!(matches!(stream.process(Event::Connected), Action::Copy));
    assert!(matches!(stream.process(Event::CopyDone), Action::Done));
    assert_eq!(stream.phase(), Phase::Closed);
}

#[test]
fn all_candidates_fail() {
    let frame = request(0x01, 80, &[0x01, 10, 0, 0, 1]);
    let mut stream = VmessStream::new(config(&["1.2.3.4:8080", "5.6.7.8"]));
    expect_connect(handshake(&mut stream, &frame), "10.0.0.1", 80);
    stream.process(Event::ConnectFailed("first".to_string()));
    stream.process(Event::ConnectFailed("second".to_string()));
    match stream.process(Event::ConnectFailed("third".to_string())) {
        Action::Fail(RelayError::AllFailed(list)) => {
            assert_eq!(list, vec!["first", "second", "third"]);
        }
        _ => panic!("no aggregate error"),
    }
    assert_eq!(stream.phase(), Phase::Failed);
    assert!(matches!(
        stream.process(Event::Connected),
        Action::Fail(RelayError::Unexpected)
    ));
    assert_eq!(stream.phase(), Phase::Failed);
}

#[test]
fn copy_failure_is_final() {
    let frame = request(0x01, 80, &[0x01, 10, 0, 0, 1]);
    let mut stream = VmessStream::new(config(&["1.2.3.4:8080"]));
    expect_connect(handshake(&mut stream, &frame), "10.0.0.1", 80);
    assert!(matches!(stream.process(Event::Connected), Action::Copy));
    match stream.process(Event::CopyFailed("reset".to_string())) {
        Action::Fail(RelayError::AllFailed(list)) => assert_eq!(list, vec!["reset"]),
        _ => panic!("no aggregate error"),
    }
    assert_eq!(stream.phase(), Phase::Failed);
}

#[test]
fn non_tcp_resolver_failure_ends_quietly() {
    let frame = request(0x02, 53, &[0x01, 8, 8, 8, 8]);
    let mut stream = VmessStream::new(config(&["1.2.3.4:8080"]));
    assert!(matches!(handshake(&mut stream, &frame), Action::ReadMessage(65535)));
    assert_eq!(stream.phase(), Phase::Relaying);
    match stream.process(Event::Message(vec![1, 2, 3])) {
        Action::Resolve(q) => assert_eq!(q, vec![1u8, 2, 3]),
        _ => panic!("the query was not handed on"),
    }
    assert!(matches!(stream.process(Event::Resolved(false)), Action::Done));
    assert_eq!(stream.phase(), Phase::Closed);
}

#[test]
fn non_tcp_resolver_success_echoes_the_query() {
    let frame = request(0x03, 53, &[0x01, 8, 8, 8, 8]);
    let mut stream = VmessStream::new(config(&[]));
    assert!(matches!(handshake(&mut stream, &frame), Action::ReadMessage(65535)));
    let long = vec![7u8; 70000];
    match stream.process(Event::Message(long)) {
        Action::Resolve(q) => assert_eq!(q, vec![7u8; 65535]),
        _ => panic!("the query was not handed on"),
    }
    match stream.process(Event::Resolved(true)) {
        Action::Send(q) => assert_eq!(q, vec![7u8; 65535]),
        _ => panic!("the query was not written back"),
    }
    assert_eq!(stream.phase(), Phase::Relaying);
    assert!(matches!(stream.process(Event::Written), Action::Done));
    assert_eq!(stream.phase(), Phase::Closed);
}

#[test]
fn handshake_failures_end_the_connection() {
    let frame = request(0x01, 443, &domain_field("example.com"));
    let mut stream = VmessStream::new(config(&[]));
    assert!(matches!(
        stream.process(Event::Bytes(frame[..10].to_vec())),
        Action::Fail(RelayError::Handshake(HandshakeError::Stream))
    ));
    assert_eq!(stream.phase(), Phase::Failed);

    let mut bad = frame.clone();
    bad[20] ^= 0x80;
    let mut stream = VmessStream::new(config(&[]));
    assert!(matches!(
        stream.process(Event::Bytes(bad[..PREAMBLE_LEN].to_vec())),
        Action::Fail(RelayError::Handshake(HandshakeError::Authentication))
    ));

    let mut bad = frame.clone();
    let last = bad.len() - 1;
    bad[last] ^= 1;
    let mut stream = VmessStream::new(config(&[]));
    assert!(matches!(
        stream.process(Event::Bytes(bad[..PREAMBLE_LEN].to_vec())),
        Action::Read(_)
    ));
    assert!(matches!(
        stream.process(Event::Bytes(bad[PREAMBLE_LEN..].to_vec())),
        Action::Fail(RelayError::Handshake(HandshakeError::Authentication))
    ));
    assert_eq!(stream.phase(), Phase::Failed);
}

#[test]
fn transport_failure_and_unexpected_events() {
    let mut stream = VmessStream::new(config(&[]));
    assert!(matches!(
        stream.process(Event::TransportFailed),
        Action::Fail(RelayError::Transport)
    ));
    assert_eq!(stream.phase(), Phase::Failed);
    let mut stream = VmessStream::new(config(&[]));
    assert!(matches!(
        stream.process(Event::Written),
        Action::Fail(RelayError::Unexpected)
    ));
    assert_eq!(stream.phase(), Phase::Failed);
}

#[test]
fn target_that_is_also_a_fallback_is_split() {
    let frame = request(0x01, 80, &domain_field("gate:81"));
    let mut stream = VmessStream::new(config(&["gate:81"]));
    expect_connect(handshake(&mut stream, &frame), "gate", 81);
}

#[test]
fn buffer_reads_in_arrival_order() {
    let mut b = RelayBuffer::new();
    assert_eq!(b.len(), 0);
    assert_eq!(b.read(10), None);
    assert!(b.push_message(&[1, 2, 3]));
    assert!(b.push_message(&[4, 5]));
    assert_eq!(b.len(), 5);
    assert_eq!(b.read(0), None);
    assert_eq!(b.read(2), Some(vec![1u8, 2]));
    assert_eq!(b.read_exact(4), None);
    assert_eq!(b.len(), 3);
    assert_eq!(b.read_exact(2), Some(vec![3u8, 4]));
    assert_eq!(b.read(10), Some(vec![5u8]));
    assert_eq!(b.read(10), None);
    assert_eq!(b.read_exact(0), Some(Vec::new()));
}

#[test]
fn buffer_takes_inbound_events() {
    let mut b = RelayBuffer::new();
    assert_eq!(b.on_inbound(Inbound::Pending), ReadStep::Suspend);
    assert_eq!(b.on_inbound(Inbound::Message(vec![9, 8])), ReadStep::Retry);
    assert_eq!(b.on_inbound(Inbound::Message(vec![7])), ReadStep::Retry);
    assert_eq!(b.on_inbound(Inbound::Ended), ReadStep::End);
    assert_eq!(b.read(16), Some(vec![9u8, 8, 7]));
}

#[test]
fn error_texts() {
    assert_eq!(
        RelayError::Handshake(HandshakeError::Authentication).message(),
        "authentication failed"
    );
    assert_eq!(
        RelayError::Handshake(HandshakeError::Stream).message(),
        "unexpected end of stream"
    );
    assert_eq!(RelayError::Handshake(HandshakeError::Decode).message(), "invalid command");
    assert_eq!(RelayError::Transport.message(), "transport failed");
    assert_eq!(RelayError::Unexpected.message(), "unexpected event");
    let all = RelayError::AllFailed(vec!["socket not open".to_string(), "a \"b\"".to_string()]);
    assert_eq!(
        all.message(),
        "all tcp attempts failed: [\"socket not open\", \"a \\\"b\\\"\"]"
    );
}
