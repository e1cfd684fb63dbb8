//! Reading the ClientHello and finding the host name it asks for.
//!
//! The handshake grammar itself is rustls's business: the bytes go to its
//! message reader, and what comes back is copied into the plain types of this
//! module. Everything decided on the outcome is decided here.

use crate::failure::Failure;
use crate::record::{
    read_record_header, record_header, ContentType, ProtocolVersion, HANDSHAKE_MAX_LENGTH,
    RECORD_HEADER_LENGTH,
};
use rustls::internal::msgs::codec::{Codec, Reader};
use rustls::internal::msgs::enums::ProtocolVersion as WireVersion;
use rustls::internal::msgs::handshake::{
    HandshakeMessagePayload, HandshakePayload, ServerNamePayload,
};
use vstd::prelude::*;
use vstd::slice::slice_subrange;

verus! {

/// One entry of a Server Name extension.
#[derive(Debug, PartialEq, Eq)]
pub enum ServerName {
    /// A DNS host name.
    HostName(String),
    /// An entry of another kind, with its name-type byte.
    Unknown(u8),
}

/// A server-name entry as contracts see it.
pub enum ServerNameView {
    HostName(Seq<char>),
    Unknown(u8),
}

impl View for ServerName {
    type V = ServerNameView;

    open spec fn view(&self) -> ServerNameView {
        match self {
            ServerName::HostName(host) => ServerNameView::HostName(host@),
            ServerName::Unknown(name_type) => ServerNameView::Unknown(*name_type),
        }
    }
}

/// A handshake message, as far as routing cares about it.
#[derive(Debug, PartialEq, Eq)]
pub enum HandshakeMessage {
    /// A ClientHello, with the entries of its Server Name extension in wire
    /// order, or `None` where it has no such extension.
    ClientHello { server_names: Option<Vec<ServerName>> },
    /// Any other handshake message.
    Other,
}

/// A handshake message as contracts see it.
pub enum HandshakeView {
    ClientHello { server_names: Option<Seq<ServerNameView>> },
    Other,
}

impl View for HandshakeMessage {
    type V = HandshakeView;

    open spec fn view(&self) -> HandshakeView {
        match self {
            HandshakeMessage::ClientHello { server_names } => HandshakeView::ClientHello {
                server_names: match server_names {
                    Some(names) => Some(names@.map_values(|name: ServerName| name@)),
                    None => None,
                },
            },
            HandshakeMessage::Other => HandshakeView::Other,
        }
    }
}

/// The view of a message that may be missing.
pub open spec fn message_view(message: Option<HandshakeMessage>) -> Option<HandshakeView> {
    match message {
        Some(message) => Some(message@),
        None => None,
    }
}

/// The view of a decoding outcome: the host name's characters, or the failure.
pub open spec fn host_view(result: Result<String, Failure>) -> Result<Seq<char>, Failure> {
    match result {
        Ok(host) => Ok(host@),
        Err(failure) => Err(failure),
    }
}

/// The type byte that opens a ClientHello.
pub const CLIENT_HELLO: u8 = 0x01;

/// True where `body` opens with the type byte of a ClientHello.
pub open spec fn announces_client_hello(body: Seq<u8>) -> bool {
    body.len() > 0 && body[0] == CLIENT_HELLO
}

/// What rustls makes of `body` when it reads one handshake message from its
/// front, for a record of protocol version `major.minor`: the message, or
/// `None` where it rejects the bytes.
pub uninterp spec fn handshake_read(body: Seq<u8>, major: u8, minor: u8) -> Option<HandshakeView>;

/// Hands `body` to rustls's `HandshakeMessagePayload::read_version`, with the
/// version that its `ProtocolVersion::read_bytes` makes of the two version
/// bytes.
/// Nothing is proved of the parse. The contract gives its outcome the name
/// `handshake_read`, and claims one fact of it that the reader's source
/// shows: it takes the message's kind from the first byte, so what does not
/// open with the ClientHello type byte is never read as a ClientHello. A
/// ClientHello comes back with the entries that its `get_sni_extension`
/// finds, host names as rustls holds them; every other message rustls
/// accepts comes back as `Other`.
#[verifier::external_body]
fn read_handshake(body: &[u8], version: ProtocolVersion) -> (message: Option<HandshakeMessage>)
    ensures
        message_view(message) == handshake_read(body@, version.major, version.minor),
        !announces_client_hello(body@) ==> !(message matches Some(
            HandshakeMessage::ClientHello { .. },
        )),
{
    let version = WireVersion::read_bytes(&[version.major, version.minor])?;
    let read = HandshakeMessagePayload::read_version(&mut Reader::init(body), version)?;
    Some(match read.payload {
        HandshakePayload::ClientHello(hello) => HandshakeMessage::ClientHello {
            server_names: hello.get_sni_extension().map(|names| names.iter().map(|name| match &name.payload {
                ServerNamePayload::HostName(host) => ServerName::HostName(AsRef::<str>::as_ref(host).to_owned()),
                ServerNamePayload::Unknown(_) => ServerName::Unknown(name.typ.get_u8()),
            }).collect()),
        },
        _ => HandshakeMessage::Other,
    })
}

/// An owned copy of a string.
pub fn as_str(s: &str) -> (owned: String)
    ensures
        owned@ == s@,
{
    s.to_owned()
}

/// The host a handshake message asks for. Only a ClientHello asks for one,
/// and only through the first entry of its Server Name extension.
pub open spec fn requested_host(message: Option<HandshakeView>) -> Result<Seq<char>, Failure> {
    match message {
        None => Err(Failure::NotClientHello),
        Some(HandshakeView::Other) => Err(Failure::NotClientHello),
        Some(HandshakeView::ClientHello { server_names: None }) => Err(Failure::MissingSNI),
        Some(HandshakeView::ClientHello { server_names: Some(names) }) => {
            if names.len() == 0 {
                Err(Failure::MissingSNI)
            } else {
                match names[0] {
                    ServerNameView::HostName(host) => Ok(host),
                    ServerNameView::Unknown(_) => Err(Failure::UnsupportedSNIType),
                }
            }
        },
    }
}

/// Picks the host name out of what was read from a handshake body, where
/// `None` stands for a body that could not be read.
pub fn select_host(message: &Option<HandshakeMessage>) -> (result: Result<String, Failure>)
    ensures
        host_view(result) == requested_host(message_view(*message)),
{
    match message {
        None => Err(Failure::NotClientHello),
        Some(HandshakeMessage::Other) => Err(Failure::NotClientHello),
        Some(HandshakeMessage::ClientHello { server_names: None }) => Err(Failure::MissingSNI),
        Some(HandshakeMessage::ClientHello { server_names: Some(names) }) => {
            if names.len() == 0 {
                Err(Failure::MissingSNI)
            } else {
                match &names[0] {
                    ServerName::HostName(host) => Ok(as_str(host.as_str())),
                    ServerName::Unknown(_) => Err(Failure::UnsupportedSNIType),
                }
            }
        },
    }
}

/// The host that the handshake message at the front of `body` asks for. A
/// message of any type but ClientHello asks for none, whatever it holds.
pub open spec fn host_in_handshake(body: Seq<u8>, version: ProtocolVersion) -> Result<
    Seq<char>,
    Failure,
> {
    if announces_client_hello(body) {
        requested_host(handshake_read(body, version.major, version.minor))
    } else {
        Err(Failure::NotClientHello)
    }
}

/// Reads the handshake message at the front of `body` and picks its host
/// name. `version` is the protocol version of the record that held it.
pub fn read_host(body: &[u8], version: ProtocolVersion) -> (result: Result<String, Failure>)
    ensures
        host_view(result) == host_in_handshake(body@, version),
{
    let message = read_handshake(body, version);
    select_host(&message)
}

/// The body of the record at the front of `record`, for a header that
/// announces `length` bytes.
pub open spec fn record_body(record: Seq<u8>, length: usize) -> Seq<u8> {
    record.subrange(RECORD_HEADER_LENGTH as int, RECORD_HEADER_LENGTH + length)
}

/// The host name that the record at the front of `record` routes to.
pub open spec fn decoded_host(record: Seq<u8>) -> Result<Seq<char>, Failure> {
    if record.len() < RECORD_HEADER_LENGTH {
        Err(Failure::ShortPeek { wanted: RECORD_HEADER_LENGTH, got: record.len() as usize })
    } else {
        let header = record_header(record);
        match header.admitted_length() {
            Err(failure) => Err(failure),
            Ok(length) => {
                if record.len() < RECORD_HEADER_LENGTH + length {
                    Err(
                        Failure::ShortPeek {
                            wanted: (RECORD_HEADER_LENGTH + length) as usize,
                            got: record.len() as usize,
                        },
                    )
                } else {
                    host_in_handshake(record_body(record, length), header.version)
                }
            },
        }
    }
}

/// Decodes the first record of a connection down to the host name it asks
/// for. The header is judged before the body is touched: a record of another
/// content type or of too great a declared length fails on its first five
/// bytes alone.
pub fn decode_hostname(record: &[u8]) -> (result: Result<String, Failure>)
    ensures
        host_view(result) == decoded_host(record@),
{
    let header = match read_record_header(record) {
        Ok(header) => header,
        Err(failure) => {
            return Err(failure);
        },
    };
    let length = match header.handshake_length() {
        Ok(length) => length,
        Err(failure) => {
            return Err(failure);
        },
    };
    if record.len() < RECORD_HEADER_LENGTH + length {
        return Err(
            Failure::ShortPeek { wanted: RECORD_HEADER_LENGTH + length, got: record.len() },
        );
    }
    let body = slice_subrange(record, RECORD_HEADER_LENGTH, RECORD_HEADER_LENGTH + length);
    read_host(body, header.version)
}

/// True where `record` starts with a whole handshake record of admissible
/// size: five header bytes of content type Handshake, a declared length
/// within the maximum, and at least that many bytes after the header.
pub open spec fn frames_handshake(record: Seq<u8>) -> bool {
    &&& record.len() >= RECORD_HEADER_LENGTH
    &&& record_header(record).content_type == ContentType::Handshake
    &&& record_header(record).length <= HANDSHAKE_MAX_LENGTH
    &&& record.len() >= RECORD_HEADER_LENGTH + record_header(record).length
}

/// The body of a framed record.
pub open spec fn framed_body(record: Seq<u8>) -> Seq<u8>
    recommends
        frames_handshake(record),
{
    record_body(record, record_header(record).length as usize)
}

/// What rustls makes of the body of a framed record.
pub open spec fn framed_message(record: Seq<u8>) -> Option<HandshakeView>
    recommends
        frames_handshake(record),
{
    let version = record_header(record).version;
    handshake_read(framed_body(record), version.major, version.minor)
}

/// A framed ClientHello whose first server name is a host name decodes to
/// exactly that host name.
pub proof fn lemma_client_hello_yields_its_host(
    record: Seq<u8>,
    names: Seq<ServerNameView>,
    host: Seq<char>,
)
    requires
        frames_handshake(record),
        announces_client_hello(framed_body(record)),
        framed_message(record) == Some(HandshakeView::ClientHello { server_names: Some(names) }),
        names.len() > 0,
        names[0] == ServerNameView::HostName(host),
    ensures
        decoded_host(record) == Ok::<Seq<char>, Failure>(host),
{
}

/// A record of any content type but Handshake is refused on its header,
/// whatever follows.
pub proof fn lemma_other_content_is_not_a_handshake(record: Seq<u8>)
    requires
        record.len() >= RECORD_HEADER_LENGTH,
        record[0] != 0x16,
    ensures
        decoded_host(record) == Err::<Seq<char>, Failure>(Failure::NotAHandshake),
{
}

/// A handshake record that declares more than the maximum is refused on its
/// header, whatever follows, with the length it declared.
pub proof fn lemma_oversized_handshake_is_refused(record: Seq<u8>)
    requires
        record.len() >= RECORD_HEADER_LENGTH,
        record[0] == 0x16,
        record[3] * 256 + record[4] > HANDSHAKE_MAX_LENGTH,
    ensures
        decoded_host(record) == Err::<Seq<char>, Failure>(
            Failure::HandshakeTooLarge { declared: (record[3] * 256 + record[4]) as usize },
        ),
{
}

/// A framed message of any type but ClientHello is refused as such, and so
/// is an empty record.
pub proof fn lemma_other_type_is_not_client_hello(record: Seq<u8>)
    requires
        frames_handshake(record),
        record_header(record).length == 0 || record[RECORD_HEADER_LENGTH as int] != CLIENT_HELLO,
    ensures
        decoded_host(record) == Err::<Seq<char>, Failure>(Failure::NotClientHello),
{
}

/// A framed message that announces a ClientHello and cannot be read as one
/// is refused like any other message.
pub proof fn lemma_unreadable_message_is_not_client_hello(record: Seq<u8>)
    requires
        frames_handshake(record),
        framed_message(record) is None || framed_message(record) == Some(HandshakeView::Other),
    ensures
        decoded_host(record) == Err::<Seq<char>, Failure>(Failure::NotClientHello),
{
}

/// A framed ClientHello without a Server Name extension, or with an empty
/// one, names no server.
pub proof fn lemma_client_hello_without_server_name(record: Seq<u8>)
    requires
        frames_handshake(record),
        announces_client_hello(framed_body(record)),
        framed_message(record) == Some(HandshakeView::ClientHello { server_names: None })
            || framed_message(record) == Some(
            HandshakeView::ClientHello { server_names: Some(Seq::<ServerNameView>::empty()) },
        ),
    ensures
        decoded_host(record) == Err::<Seq<char>, Failure>(Failure::MissingSNI),
{
}

/// A framed ClientHello whose first server name is of an unknown type is
/// refused, whatever entries come after it.
pub proof fn lemma_unknown_name_type_is_unsupported(
    record: Seq<u8>,
    names: Seq<ServerNameView>,
)
    requires
        frames_handshake(record),
        announces_client_hello(framed_body(record)),
        framed_message(record) == Some(HandshakeView::ClientHello { server_names: Some(names) }),
        names.len() > 0,
        names[0] is Unknown,
    ensures
        decoded_host(record) == Err::<Seq<char>, Failure>(Failure::UnsupportedSNIType),
{
}

} // verus!
