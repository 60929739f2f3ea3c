use wagonet::protocol_structs::{Command, ResponseStatus};
use wagonet::request_header::RequestHeader;
use wagonet::response_header::ResponseHeader;
use wagonet::Error;

const MAX: usize = 10 * 1024 * 1024;

fn assert_ping_codec() {
    let req = RequestHeader::new(Command::Ping.into(), 0);
    let mut buf = Vec::new();
    req.encode(&mut buf).unwrap();
    assert_eq!(buf.len(), 8);
    assert_eq!(buf, [0, 0, 0, 0, 0, 0, 0, 0]);

    let mut slice = buf.as_slice();
    let decoded = RequestHeader::decode(&mut slice, MAX).unwrap();
    assert_eq!(decoded.command, u32::from(Command::Ping));
    assert_eq!(decoded.data_size, 0);
    assert!(slice.is_empty());
}

#[test]
fn client_tl_ping_header_codec() {
    assert_ping_codec();
}

#[test]
fn client_tls_ping_header_codec() {
    assert_ping_codec();
}

#[test]
fn ping_ping_header_codec() {
    assert_ping_codec();
}

#[test]
fn test_request_header() {
    let header = RequestHeader::new(1, 1);
    let mut buf = Vec::with_capacity(RequestHeader::encoded_len());
    header.encode(&mut buf).unwrap();
    assert_eq!(RequestHeader::encoded_len(), buf.len());
    let header2 = RequestHeader::decode(&mut buf.as_slice(), 1024).unwrap();
    assert_eq!(header.command, header2.command);
    assert_eq!(header.data_size, header2.data_size);
}

#[test]
fn test_request_header_decode_oversized() {
    let header = RequestHeader::new(1, 1000);
    let mut buf = Vec::with_capacity(RequestHeader::encoded_len());
    header.encode(&mut buf).unwrap();
    let result = RequestHeader::decode(&mut buf.as_slice(), 100);
    assert!(result.is_err());
    match result.unwrap_err() {
        Error::BufferOverflow { expected, limit } => {
            assert_eq!(expected, 1000);
            assert_eq!(limit, 100);
        }
        _ => panic!("Expected BufferOverflow error"),
    }
}

#[test]
fn test_response_header() {
    let header = ResponseHeader::new(3, 1);
    let mut buf = Vec::with_capacity(ResponseHeader::RESPONSE_HEADER_SIZE);
    header.encode(&mut buf, false).unwrap();
    assert_eq!(ResponseHeader::RESPONSE_HEADER_SIZE, buf.len());
    let header2 = ResponseHeader::decode(&mut buf.as_slice(), false, 1024).unwrap();
    assert_eq!(header.status, header2.status);
    assert_eq!(header.data_size, header2.data_size);
}

#[test]
fn test_response_header_decode_oversized() {
    let header = ResponseHeader::new(3, 1000);
    let mut buf = Vec::with_capacity(ResponseHeader::RESPONSE_HEADER_SIZE);
    header.encode(&mut buf, false).unwrap();
    let result = ResponseHeader::decode(&mut buf.as_slice(), false, 100);
    assert!(result.is_err());
    match result.unwrap_err() {
        Error::BufferOverflow { expected, limit } => {
            assert_eq!(expected, 1000);
            assert_eq!(limit, 100);
        }
        _ => panic!("Expected BufferOverflow error"),
    }
}

#[test]
fn request_header_is_big_endian() {
    let mut buf = vec![9];
    RequestHeader::new(0x0102_0304, 0x0506_0708).encode(&mut buf).unwrap();
    assert_eq!(buf, [9, 1, 2, 3, 4, 5, 6, 7, 8]);
}

#[test]
fn request_header_leaves_the_rest() {
    let bytes = [0, 0, 0, 42, 0, 0, 0, 5, 1, 2, 3];
    let mut rest = &bytes[..];
    let header = RequestHeader::decode(&mut rest, 5).unwrap();
    assert_eq!(header, RequestHeader::new(42, 5));
    assert_eq!(rest, [1, 2, 3]);
}

#[test]
fn short_request_header_is_a_protocol_error() {
    let bytes = [0u8; 7];
    let mut rest = &bytes[..];
    match RequestHeader::decode(&mut rest, MAX) {
        Err(Error::Protocol(text)) => {
            assert_eq!(text, "Not enough bytes to decode RequestHeader");
        }
        _ => panic!("a short header must be refused"),
    }
    assert_eq!(rest.len(), 7);
}

#[test]
fn short_response_header_is_a_protocol_error() {
    for bytes in [vec![], vec![1, 0, 0, 0]] {
        match ResponseHeader::decode(&mut bytes.as_slice(), false, MAX) {
            Err(Error::Protocol(text)) => {
                assert_eq!(text, "Not enough bytes to decode ResponseHeader");
            }
            _ => panic!("a short header must be refused"),
        }
    }
}

#[test]
fn default_response_header_is_one_byte() {
    let mut buf = Vec::new();
    ResponseHeader::new(7, 99).encode(&mut buf, true).unwrap();
    assert_eq!(buf, [7]);
    let header = ResponseHeader::decode(&mut buf.as_slice(), true, 0).unwrap();
    assert_eq!(header, ResponseHeader::new(7, 0));
}

#[test]
fn announcement_form_follows_the_size() {
    assert_eq!(ResponseHeader::announce(1, 0), [1]);
    assert_eq!(ResponseHeader::announce(3, 258), [3, 0, 0, 1, 2]);
}

#[test]
fn response_header_lengths() {
    assert_eq!(ResponseHeader::encoded_len(true, true), 1);
    assert_eq!(ResponseHeader::encoded_len(true, false), 1);
    assert_eq!(ResponseHeader::encoded_len(false, true), 5);
    assert_eq!(ResponseHeader::encoded_len(false, false), 1);
}

#[test]
fn statuses_survive_their_codes() {
    for code in 0u8..=13 {
        let status = ResponseStatus::from(code);
        assert_eq!(u8::from(status), code);
        assert_eq!(u32::from(status), u32::from(code));
        assert_eq!(ResponseStatus::from_repr(code), Some(status));
    }
    assert_eq!(ResponseStatus::from(7u8), ResponseStatus::InvalidDataSize);
    assert_eq!(ResponseStatus::from(14u8), ResponseStatus::Unknown);
    assert_eq!(ResponseStatus::from_repr(14), None);
    assert_eq!(ResponseStatus::from(257u32), ResponseStatus::Success);
}

#[test]
fn statuses_have_texts() {
    assert_eq!(ResponseStatus::Unknown.to_string(), "Unknown error");
    assert_eq!(ResponseStatus::Success.to_string(), "No error");
    assert_eq!(ResponseStatus::DatabaseError.to_string(), "Database error");
    assert_eq!(ResponseStatus::InvalidSignature.to_string(), "Invalid signature");
}
