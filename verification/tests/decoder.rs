use sniproxy::failure::Failure;
use sniproxy::handshake::{as_str, decode_hostname, read_host, select_host};
use sniproxy::handshake::{HandshakeMessage, ServerName};
use sniproxy::record::{read_record_header, ContentType, ProtocolVersion, RecordHeader};
use sniproxy::record::{HANDSHAKE_MAX_LENGTH, RECORD_HEADER_LENGTH};

fn client_hello_body(extensions: &[u8]) -> Vec<u8> {
    let mut body = vec![0x03, 0x03];
    body.extend_from_slice(&[0x5a; 32]);
    body.push(0);
    body.extend_from_slice(&[0x00, 0x02, 0x13, 0x01]);
    body.extend_from_slice(&[0x01, 0x00]);
    if !extensions.is_empty() {
        body.extend_from_slice(&(extensions.len() as u16).to_be_bytes());
        body.extend_from_slice(extensions);
    }
    body
}

fn handshake(kind: u8, body: &[u8]) -> Vec<u8> {
    let mut message = vec![kind];
    message.extend_from_slice(&(body.len() as u32).to_be_bytes()[1..]);
    message.extend_from_slice(body);
    message
}

fn record(content_type: u8, payload: &[u8]) -> Vec<u8> {
    let mut record = vec![content_type, 0x03, 0x01];
    record.extend_from_slice(&(payload.len() as u16).to_be_bytes());
    record.extend_from_slice(payload);
    record
}

fn extension(kind: u16, body: &[u8]) -> Vec<u8> {
    let mut extension = kind.to_be_bytes().to_vec();
    extension.extend_from_slice(&(body.len() as u16).to_be_bytes());
    extension.extend_from_slice(body);
    extension
}

fn server_name_extension(entries: &[u8]) -> Vec<u8> {
    let mut list = (entries.len() as u16).to_be_bytes().to_vec();
    list.extend_from_slice(entries);
    extension(0x0000, &list)
}

fn host_entry(name: &str) -> Vec<u8> {
    let mut entry = vec![0x00];
    entry.extend_from_slice(&(name.len() as u16).to_be_bytes());
    entry.extend_from_slice(name.as_bytes());
    entry
}

fn client_hello_record(extensions: &[u8]) -> Vec<u8> {
    record(0x16, &handshake(0x01, &client_hello_body(extensions)))
}

const TLS_1_0: ProtocolVersion = ProtocolVersion { major: 3, minor: 1 };

#[test]
fn the_limits_are_five_and_two_thousand_forty_eight() {
    assert_eq!(RECORD_HEADER_LENGTH, 5);
    assert_eq!(HANDSHAKE_MAX_LENGTH, 2048);
}

#[test]
fn content_types_are_named_by_their_byte() {
    assert_eq!(ContentType::from_byte(0x14), ContentType::ChangeCipherSpec);
    assert_eq!(ContentType::from_byte(0x15), ContentType::Alert);
    assert_eq!(ContentType::from_byte(0x16), ContentType::Handshake);
    assert_eq!(ContentType::from_byte(0x17), ContentType::ApplicationData);
    assert_eq!(ContentType::from_byte(0x18), ContentType::Heartbeat);
    assert_eq!(ContentType::from_byte(0x00), ContentType::Unknown(0x00));
    assert_eq!(ContentType::from_byte(0xff), ContentType::Unknown(0xff));
    assert!(ContentType::Handshake.is_handshake());
    assert!(!ContentType::ApplicationData.is_handshake());
    assert!(!ContentType::Unknown(0x16).is_handshake());
}

#[test]
fn a_record_header_is_five_bytes_in_network_order() {
    let header = read_record_header(&[0x16, 0x03, 0x01, 0x01, 0x02]);
    assert_eq!(
        header,
        Ok(RecordHeader {
            content_type: ContentType::Handshake,
            version: ProtocolVersion { major: 3, minor: 1 },
            length: 258,
        })
    );
}

#[test]
fn a_record_header_ignores_what_follows_it() {
    let header = read_record_header(&[0x17, 0x03, 0x03, 0xff, 0xff, 9, 9, 9]);
    assert_eq!(
        header,
        Ok(RecordHeader {
            content_type: ContentType::ApplicationData,
            version: ProtocolVersion { major: 3, minor: 3 },
            length: 65535,
        })
    );
}

#[test]
fn fewer_than_five_bytes_are_no_record_header() {
    assert_eq!(read_record_header(&[]), Err(Failure::ShortPeek { wanted: 5, got: 0 }));
    assert_eq!(
        read_record_header(&[0x16, 0x03, 0x01, 0x00]),
        Err(Failure::ShortPeek { wanted: 5, got: 4 })
    );
}

#[test]
fn a_header_admits_handshakes_up_to_the_maximum() {
    let mut header = RecordHeader { content_type: ContentType::Handshake, version: TLS_1_0, length: 0 };
    assert_eq!(header.handshake_length(), Ok(0));
    header.length = 2048;
    assert_eq!(header.handshake_length(), Ok(2048));
    header.length = 2049;
    assert_eq!(header.handshake_length(), Err(Failure::HandshakeTooLarge { declared: 2049 }));
    header.length = 65535;
    assert_eq!(header.handshake_length(), Err(Failure::HandshakeTooLarge { declared: 65535 }));
}

#[test]
fn a_header_judges_the_content_type_before_the_length() {
    let header = RecordHeader { content_type: ContentType::ApplicationData, version: TLS_1_0, length: 65535 };
    assert_eq!(header.handshake_length(), Err(Failure::NotAHandshake));
    let header = RecordHeader { content_type: ContentType::Unknown(0), version: TLS_1_0, length: 10 };
    assert_eq!(header.handshake_length(), Err(Failure::NotAHandshake));
}

#[test]
fn decodes_the_host_name_of_a_client_hello() {
    let bytes = client_hello_record(&server_name_extension(&host_entry("example.test")));
    assert_eq!(decode_hostname(&bytes), Ok("example.test".to_string()));
}

#[test]
fn decodes_the_host_name_among_other_extensions() {
    let mut extensions = extension(0x000a, &[0x00, 0x02, 0x00, 0x1d]);
    extensions.extend_from_slice(&server_name_extension(&host_entry("backend.internal")));
    extensions.extend_from_slice(&extension(0xff01, &[0x00]));
    let bytes = client_hello_record(&extensions);
    assert_eq!(decode_hostname(&bytes), Ok("backend.internal".to_string()));
}

#[test]
fn decodes_the_first_of_several_host_names() {
    let mut entries = host_entry("first.test");
    entries.extend_from_slice(&host_entry("second.test"));
    let bytes = client_hello_record(&server_name_extension(&entries));
    assert_eq!(decode_hostname(&bytes), Ok("first.test".to_string()));
}

#[test]
fn decodes_a_client_hello_of_exactly_the_maximum_size() {
    let name = server_name_extension(&host_entry("large.test"));
    let overhead = handshake(0x01, &client_hello_body(&[name.clone(), extension(0x0015, &[])].concat())).len();
    let padding = vec![0u8; 2048 - overhead];
    let bytes = client_hello_record(&[name, extension(0x0015, &padding)].concat());
    assert_eq!(bytes.len(), 5 + 2048);
    assert_eq!(decode_hostname(&bytes), Ok("large.test".to_string()));
}

#[test]
fn a_client_hello_one_byte_over_the_maximum_is_too_large() {
    let name = server_name_extension(&host_entry("large.test"));
    let overhead = handshake(0x01, &client_hello_body(&[name.clone(), extension(0x0015, &[])].concat())).len();
    let padding = vec![0u8; 2049 - overhead];
    let bytes = client_hello_record(&[name, extension(0x0015, &padding)].concat());
    assert_eq!(bytes.len(), 5 + 2049);
    assert_eq!(decode_hostname(&bytes), Err(Failure::HandshakeTooLarge { declared: 2049 }));
}

#[test]
fn host_names_come_back_as_rustls_holds_them() {
    let bytes = client_hello_record(&server_name_extension(&host_entry("Example.TEST")));
    assert_eq!(decode_hostname(&bytes), Ok("example.test".to_string()));
}

#[test]
fn bytes_after_the_first_record_are_left_alone() {
    let mut bytes = client_hello_record(&server_name_extension(&host_entry("example.test")));
    bytes.extend_from_slice(&[0x17, 0x03, 0x03, 0x00, 0x01, 0xaa]);
    assert_eq!(decode_hostname(&bytes), Ok("example.test".to_string()));
}

#[test]
fn declared_length_2049_is_too_large_on_the_header_alone() {
    assert_eq!(
        decode_hostname(&[0x16, 0x03, 0x01, 0x08, 0x01]),
        Err(Failure::HandshakeTooLarge { declared: 2049 })
    );
}

#[test]
fn declared_length_65535_is_too_large_on_the_header_alone() {
    assert_eq!(
        decode_hostname(&[0x16, 0x03, 0x01, 0xff, 0xff]),
        Err(Failure::HandshakeTooLarge { declared: 65535 })
    );
}

#[test]
fn application_data_is_not_a_handshake() {
    let bytes = record(0x17, &[1, 2, 3]);
    assert_eq!(decode_hostname(&bytes), Err(Failure::NotAHandshake));
}

#[test]
fn application_data_is_not_a_handshake_whatever_it_holds() {
    let hello = handshake(0x01, &client_hello_body(&server_name_extension(&host_entry("example.test"))));
    assert_eq!(decode_hostname(&record(0x17, &hello)), Err(Failure::NotAHandshake));
    assert_eq!(decode_hostname(&[0x17, 0x03, 0x03, 0xff, 0xff]), Err(Failure::NotAHandshake));
    assert_eq!(decode_hostname(&[0x15, 0x03, 0x03, 0x00, 0x02, 2, 40]), Err(Failure::NotAHandshake));
    assert_eq!(decode_hostname(&[0x00, 0x00, 0x00, 0x00, 0x00]), Err(Failure::NotAHandshake));
}

#[test]
fn a_truncated_record_is_a_short_peek() {
    let bytes = client_hello_record(&server_name_extension(&host_entry("example.test")));
    let wanted = bytes.len();
    assert_eq!(
        decode_hostname(&bytes[..wanted - 1]),
        Err(Failure::ShortPeek { wanted, got: wanted - 1 })
    );
    assert_eq!(decode_hostname(&bytes[..3]), Err(Failure::ShortPeek { wanted: 5, got: 3 }));
    assert_eq!(decode_hostname(&[]), Err(Failure::ShortPeek { wanted: 5, got: 0 }));
}

#[test]
fn a_client_hello_without_extensions_misses_the_server_name() {
    let bytes = client_hello_record(&[]);
    assert_eq!(decode_hostname(&bytes), Err(Failure::MissingSNI));
}

#[test]
fn a_client_hello_without_server_name_extension_misses_it() {
    let bytes = client_hello_record(&extension(0x000a, &[0x00, 0x02, 0x00, 0x1d]));
    assert_eq!(decode_hostname(&bytes), Err(Failure::MissingSNI));
}

#[test]
fn an_empty_server_name_list_names_no_server() {
    let bytes = client_hello_record(&server_name_extension(&[]));
    assert_eq!(decode_hostname(&bytes), Err(Failure::MissingSNI));
}

#[test]
fn an_unknown_name_type_is_unsupported() {
    let bytes = client_hello_record(&server_name_extension(&[0x01, 0x00, 0x03, b'a', b'b', b'c']));
    assert_eq!(decode_hostname(&bytes), Err(Failure::UnsupportedSNIType));
}

#[test]
fn another_handshake_message_is_not_a_client_hello() {
    assert_eq!(decode_hostname(&record(0x16, &handshake(0x00, &[]))), Err(Failure::NotClientHello));
    assert_eq!(decode_hostname(&record(0x16, &handshake(0x0e, &[]))), Err(Failure::NotClientHello));
    assert_eq!(decode_hostname(&record(0x16, &handshake(0x14, &[7; 12]))), Err(Failure::NotClientHello));
}

#[test]
fn a_malformed_handshake_is_not_a_client_hello() {
    assert_eq!(decode_hostname(&record(0x16, &[])), Err(Failure::NotClientHello));
    assert_eq!(decode_hostname(&record(0x16, &[0x01, 0x00])), Err(Failure::NotClientHello));
    assert_eq!(decode_hostname(&record(0x16, &handshake(0x01, &[0x03, 0x03, 0x00]))), Err(Failure::NotClientHello));
    let mut cut = handshake(0x01, &client_hello_body(&server_name_extension(&host_entry("example.test"))));
    cut.truncate(cut.len() - 1);
    assert_eq!(decode_hostname(&record(0x16, &cut)), Err(Failure::NotClientHello));
}

#[test]
fn a_host_name_that_is_no_dns_name_spoils_the_client_hello() {
    let bytes = client_hello_record(&server_name_extension(&host_entry("not a name")));
    assert_eq!(decode_hostname(&bytes), Err(Failure::NotClientHello));
}

#[test]
fn read_host_takes_the_handshake_without_its_record_header() {
    let message = handshake(0x01, &client_hello_body(&server_name_extension(&host_entry("example.test"))));
    assert_eq!(read_host(&message, TLS_1_0), Ok("example.test".to_string()));
    assert_eq!(read_host(&message, ProtocolVersion { major: 3, minor: 4 }), Ok("example.test".to_string()));
    assert_eq!(read_host(&record(0x16, &message), TLS_1_0), Err(Failure::NotClientHello));
    assert_eq!(read_host(&[], TLS_1_0), Err(Failure::NotClientHello));
}

#[test]
fn select_host_takes_the_first_entry() {
    let message = Some(HandshakeMessage::ClientHello {
        server_names: Some(vec![
            ServerName::HostName("one.test".to_string()),
            ServerName::Unknown(7),
            ServerName::HostName("two.test".to_string()),
        ]),
    });
    assert_eq!(select_host(&message), Ok("one.test".to_string()));
}

#[test]
fn select_host_does_not_look_past_an_unknown_first_entry() {
    let message = Some(HandshakeMessage::ClientHello {
        server_names: Some(vec![ServerName::Unknown(7), ServerName::HostName("two.test".to_string())]),
    });
    assert_eq!(select_host(&message), Err(Failure::UnsupportedSNIType));
}

#[test]
fn select_host_fails_closed_without_a_name() {
    assert_eq!(select_host(&None), Err(Failure::NotClientHello));
    assert_eq!(select_host(&Some(HandshakeMessage::Other)), Err(Failure::NotClientHello));
    assert_eq!(
        select_host(&Some(HandshakeMessage::ClientHello { server_names: None })),
        Err(Failure::MissingSNI)
    );
    assert_eq!(
        select_host(&Some(HandshakeMessage::ClientHello { server_names: Some(vec![]) })),
        Err(Failure::MissingSNI)
    );
}

#[test]
fn as_str_copies_the_string() {
    assert_eq!(as_str("example.test"), "example.test".to_string());
    assert_eq!(as_str(""), String::new());
    assert_eq!(as_str("b\u{fc}cher.test"), "b\u{fc}cher.test".to_string());
}
