//! The five-byte header that frames every TLS record.
//!
//! Layout on the wire: one byte of content type, two bytes of protocol
//! version, two bytes of payload length in network byte order.

use crate::failure::Failure;
use vstd::prelude::*;

verus! {

/// Number of bytes in a record header.
pub const RECORD_HEADER_LENGTH: usize = 5;

/// Largest handshake the proxy is willing to look at. A peer that announces
/// more is turned away before any buffer of that size exists.
pub const HANDSHAKE_MAX_LENGTH: usize = 2048;

/// What a record carries.
#[derive(Clone, Copy, Debug, PartialEq, Eq, Structural)]
pub enum ContentType {
    ChangeCipherSpec,
    Alert,
    Handshake,
    ApplicationData,
    Heartbeat,
    /// A value this proxy has no name for.
    Unknown(u8),
}

impl ContentType {
    /// The content type that a wire byte stands for.
    pub open spec fn of_byte(byte: u8) -> ContentType {
        if byte == 0x14 {
            ContentType::ChangeCipherSpec
        } else if byte == 0x15 {
            ContentType::Alert
        } else if byte == 0x16 {
            ContentType::Handshake
        } else if byte == 0x17 {
            ContentType::ApplicationData
        } else if byte == 0x18 {
            ContentType::Heartbeat
        } else {
            ContentType::Unknown(byte)
        }
    }

    /// Names the content type of a wire byte.
    pub fn from_byte(byte: u8) -> (content_type: ContentType)
        ensures
            content_type == Self::of_byte(byte),
    {
        if byte == 0x14 {
            ContentType::ChangeCipherSpec
        } else if byte == 0x15 {
            ContentType::Alert
        } else if byte == 0x16 {
            ContentType::Handshake
        } else if byte == 0x17 {
            ContentType::ApplicationData
        } else if byte == 0x18 {
            ContentType::Heartbeat
        } else {
            ContentType::Unknown(byte)
        }
    }

    /// True for the one content type the proxy routes on.
    pub fn is_handshake(&self) -> (yes: bool)
        ensures
            yes == (*self == ContentType::Handshake),
    {
        *self == ContentType::Handshake
    }
}

/// The protocol version a record claims, as its two wire bytes.
#[derive(Clone, Copy, Debug, PartialEq, Eq, Structural)]
pub struct ProtocolVersion {
    pub major: u8,
    pub minor: u8,
}

/// A decoded record header.
#[derive(Clone, Copy, Debug, PartialEq, Eq, Structural)]
pub struct RecordHeader {
    pub content_type: ContentType,
    pub version: ProtocolVersion,
    /// Number of payload bytes that follow the header.
    pub length: u16,
}

/// The header held in the first five bytes of `bytes`.
pub open spec fn record_header(bytes: Seq<u8>) -> RecordHeader
    recommends
        bytes.len() >= RECORD_HEADER_LENGTH,
{
    RecordHeader {
        content_type: ContentType::of_byte(bytes[0]),
        version: ProtocolVersion { major: bytes[1], minor: bytes[2] },
        length: (bytes[3] as int * 256 + bytes[4] as int) as u16,
    }
}

/// What reading a header from `bytes` yields: the header of the first five
/// bytes, or a short peek where there are fewer.
pub open spec fn header_read(bytes: Seq<u8>) -> Result<RecordHeader, Failure> {
    if bytes.len() < RECORD_HEADER_LENGTH {
        Err(Failure::ShortPeek { wanted: RECORD_HEADER_LENGTH, got: bytes.len() as usize })
    } else {
        Ok(record_header(bytes))
    }
}

/// Decodes the record header at the front of `bytes`.
pub fn read_record_header(bytes: &[u8]) -> (result: Result<RecordHeader, Failure>)
    ensures
        result == header_read(bytes@),
{
    if bytes.len() < RECORD_HEADER_LENGTH {
        return Err(Failure::ShortPeek { wanted: RECORD_HEADER_LENGTH, got: bytes.len() });
    }
    let high: u16 = bytes[3] as u16;
    let low: u16 = bytes[4] as u16;
    Ok(
        RecordHeader {
            content_type: ContentType::from_byte(bytes[0]),
            version: ProtocolVersion { major: bytes[1], minor: bytes[2] },
            length: high * 256 + low,
        },
    )
}

impl RecordHeader {
    /// The handshake length this header admits: the declared length, where
    /// the record carries a handshake that is not too large.
    pub open spec fn admitted_length(self) -> Result<usize, Failure> {
        if self.content_type != ContentType::Handshake {
            Err(Failure::NotAHandshake)
        } else if self.length > HANDSHAKE_MAX_LENGTH {
            Err(Failure::HandshakeTooLarge { declared: self.length as usize })
        } else {
            Ok(self.length as usize)
        }
    }

    /// Checks that the record is a handshake of acceptable size, and gives
    /// the number of bytes its body has. The content type is judged first.
    pub fn handshake_length(&self) -> (result: Result<usize, Failure>)
        ensures
            result == self.admitted_length(),
            result matches Ok(length) ==> length <= HANDSHAKE_MAX_LENGTH,
    {
        if !self.content_type.is_handshake() {
            Err(Failure::NotAHandshake)
        } else if self.length as usize > HANDSHAKE_MAX_LENGTH {
            Err(Failure::HandshakeTooLarge { declared: self.length as usize })
        } else {
            Ok(self.length as usize)
        }
    }
}

} // verus!
