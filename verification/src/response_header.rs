//! The header of a response, and the one-byte acknowledgement.

use vstd::arithmetic::power::pow;
use vstd::prelude::*;
use vstd::slice::slice_subrange;

use crate::be_bytes::{be_bytes, be_value, push_be, read_be};
use crate::error::{outcome, Error, Result};

verus! {

/// Announces a response: how the request fared, and how many bytes of payload follow.
///
/// The default form is the status byte alone and stands for an empty payload.
#[derive(Debug, Clone, Copy, PartialEq, Eq, Structural)]
pub struct ResponseHeader {
    pub status: u8,
    pub data_size: u32,
}

impl View for ResponseHeader {
    type V = ResponseHeader;

    open spec fn view(&self) -> ResponseHeader {
        *self
    }
}

impl ResponseHeader {
    /// Bytes that the default form takes.
    pub const DEFAULT_RESPONSE_HEADER_SIZE: usize = 1;

    /// Bytes that the full form takes.
    pub const RESPONSE_HEADER_SIZE: usize = 5;

    /// The header on the wire, in its default or its full form.
    pub open spec fn wire(self, is_default: bool) -> Seq<u8> {
        if is_default {
            seq![self.status]
        } else {
            seq![self.status] + be_bytes(self.data_size)
        }
    }

    /// The bytes that announce a response: the default form exactly where no payload follows.
    pub open spec fn announcement(status: u8, data_size: u32) -> Seq<u8> {
        (ResponseHeader { status, data_size }).wire(data_size == 0)
    }

    /// Bytes that a form takes.
    pub open spec fn form_size(is_default: bool) -> usize {
        if is_default {
            ResponseHeader::DEFAULT_RESPONSE_HEADER_SIZE
        } else {
            ResponseHeader::RESPONSE_HEADER_SIZE
        }
    }

    /// What reading a header in the given form from the front of `bytes` gives.
    pub open spec fn parse(bytes: Seq<u8>, is_default: bool, max_data_size: usize) -> Result<
        ResponseHeader,
        Error<Seq<char>>,
    > {
        let data_size = be_value(bytes.subrange(1, 5));
        if bytes.len() < ResponseHeader::form_size(is_default) {
            Err(Error::Protocol("Not enough bytes to decode ResponseHeader"@))
        } else if is_default {
            Ok(ResponseHeader { status: bytes[0], data_size: 0 })
        } else if data_size > max_data_size {
            Err(Error::BufferOverflow { expected: data_size as usize, limit: max_data_size })
        } else {
            Ok(ResponseHeader { status: bytes[0], data_size })
        }
    }

    pub fn new(status: u8, data_size: u32) -> (header: ResponseHeader)
        ensures
            header == (ResponseHeader { status, data_size }),
    {
        ResponseHeader { status, data_size }
    }

    /// Bytes to read for a header: the default form, or the full form where an answer
    /// with a payload is expected.
    pub fn encoded_len(is_default: bool, command_has_answer: bool) -> (len: usize)
        ensures
            len == ResponseHeader::form_size(is_default || !command_has_answer),
            is_default || !command_has_answer ==> len == 1,
            !is_default && command_has_answer ==> len == 5,
    {
        if is_default {
            ResponseHeader::DEFAULT_RESPONSE_HEADER_SIZE
        } else if command_has_answer {
            ResponseHeader::RESPONSE_HEADER_SIZE
        } else {
            ResponseHeader::DEFAULT_RESPONSE_HEADER_SIZE
        }
    }

    /// Appends the header to `buf`. Never fails.
    pub fn encode(&self, buf: &mut Vec<u8>, is_default: bool) -> (result: Result<()>)
        ensures
            result is Ok,
            final(buf)@ == old(buf)@ + self.wire(is_default),
            final(buf)@.len() == old(buf)@.len() + if is_default {
                1nat
            } else {
                5nat
            },
            forall|i: int|
                0 <= i < old(buf)@.len() ==> #[trigger] final(buf)@[i] == old(buf)@[i],
            final(buf)@[old(buf)@.len() as int] == self.status,
            !is_default ==> forall|i: int|
                1 <= i < 5 ==> #[trigger] final(buf)@[old(buf)@.len() + i] == (self.data_size as int
                    / pow(256, (4 - i) as nat)) % 256,
    {
        proof {
            response_header_layout(*self);
        }
        buf.push(self.status);
        if !is_default {
            push_be(buf, self.data_size);
        }
        assert(buf@ =~= old(buf)@ + self.wire(is_default));
        Ok(())
    }

    /// The bytes that announce a response with a payload of `data_size` bytes.
    pub fn announce(status: u8, data_size: u32) -> (bytes: Vec<u8>)
        ensures
            bytes@ == ResponseHeader::announcement(status, data_size),
            bytes@.len() == if data_size == 0 {
                1nat
            } else {
                5nat
            },
            bytes@[0] == status,
    {
        let mut bytes: Vec<u8> = Vec::new();
        let is_default = data_size == 0;
        let _ = ResponseHeader::new(status, data_size).encode(&mut bytes, is_default);
        assert(bytes@ =~= ResponseHeader::announcement(status, data_size));
        bytes
    }

    /// Reads a header in the given form from the front of `buf` and moves `buf` past it.
    /// Refuses a header that announces more than `max_data_size` bytes, and leaves
    /// `buf` where it is when it fails.
    pub fn decode(buf: &mut &[u8], is_default: bool, max_data_size: usize) -> (result: Result<
        ResponseHeader,
    >)
        ensures
            outcome(result) == ResponseHeader::parse(old(buf)@, is_default, max_data_size),
            final(buf)@ == if result is Ok {
                old(buf)@.skip(ResponseHeader::form_size(is_default) as int)
            } else {
                old(buf)@
            },
            result matches Ok(header) ==> {
                &&& old(buf)@.len() >= 1
                &&& header.status == old(buf)@[0]
                &&& is_default ==> header.data_size == 0 && final(buf)@ == old(buf)@.skip(1)
                &&& !is_default ==> {
                    &&& old(buf)@.len() >= 5
                    &&& header.data_size == old(buf)@[1] * 16_777_216 + old(buf)@[2] * 65_536 + old(
                        buf,
                    )@[3] * 256 + old(buf)@[4]
                    &&& header.data_size <= max_data_size
                    &&& final(buf)@ == old(buf)@.skip(5)
                }
            },
            result is Err ==> final(buf)@ == old(buf)@,
    {
        let bytes: &[u8] = *buf;
        if bytes.len() == 0 {
            return Err(Error::Protocol("Not enough bytes to decode ResponseHeader".to_owned()));
        }
        let status: u8 = bytes[0];
        if is_default {
            *buf = slice_subrange(bytes, ResponseHeader::DEFAULT_RESPONSE_HEADER_SIZE, bytes.len());
            Ok(ResponseHeader { status, data_size: 0 })
        } else {
            if bytes.len() < ResponseHeader::RESPONSE_HEADER_SIZE {
                return Err(Error::Protocol("Not enough bytes to decode ResponseHeader".to_owned()));
            }
            let data_size: u32 = read_be(bytes, 1);
            if data_size as usize > max_data_size {
                return Err(
                    Error::BufferOverflow { expected: data_size as usize, limit: max_data_size },
                );
            }
            *buf = slice_subrange(bytes, ResponseHeader::RESPONSE_HEADER_SIZE, bytes.len());
            Ok(ResponseHeader { status, data_size })
        }
    }
}

/// A full header reads back as it was written, whatever bytes follow it,
/// as long as its size is within the limit.
pub proof fn response_header_round_trip(
    header: ResponseHeader,
    rest: Seq<u8>,
    max_data_size: usize,
)
    requires
        header.data_size <= max_data_size,
    ensures
        header.wire(false).len() == ResponseHeader::RESPONSE_HEADER_SIZE,
        ResponseHeader::parse(header.wire(false) + rest, false, max_data_size) == Ok::<
            ResponseHeader,
            Error<Seq<char>>,
        >(header),
        (header.wire(false) + rest).skip(ResponseHeader::RESPONSE_HEADER_SIZE as int) == rest,
{
    let bytes = header.wire(false) + rest;
    crate::be_bytes::be_value_of_be_bytes(header.data_size);
    assert(bytes.subrange(1, 5) =~= be_bytes(header.data_size));
    assert(bytes.skip(ResponseHeader::RESPONSE_HEADER_SIZE as int) =~= rest);
}

/// A header in the default form keeps its status, loses its size, and is never refused.
pub proof fn default_response_header_round_trip(
    header: ResponseHeader,
    rest: Seq<u8>,
    max_data_size: usize,
)
    ensures
        header.wire(true).len() == ResponseHeader::DEFAULT_RESPONSE_HEADER_SIZE,
        ResponseHeader::parse(header.wire(true) + rest, true, max_data_size) == Ok::<
            ResponseHeader,
            Error<Seq<char>>,
        >(ResponseHeader { status: header.status, data_size: 0 }),
        (header.wire(true) + rest).skip(ResponseHeader::DEFAULT_RESPONSE_HEADER_SIZE as int)
            == rest,
{
    let bytes = header.wire(true) + rest;
    assert(bytes.skip(ResponseHeader::DEFAULT_RESPONSE_HEADER_SIZE as int) =~= rest);
}

/// The default form is the status alone. The full form is the status and then the size,
/// most significant byte first. A response is announced in the full form exactly where it
/// has a payload.
pub proof fn response_header_layout(header: ResponseHeader)
    ensures
        header.wire(true) == seq![header.status],
        header.wire(false).len() == 5,
        header.wire(false)[0] == header.status,
        forall|i: int|
            1 <= i < 5 ==> #[trigger] header.wire(false)[i] == (header.data_size as int / pow(
                256,
                (4 - i) as nat,
            )) % 256,
        header.data_size == 0 ==> ResponseHeader::announcement(header.status, header.data_size)
            == seq![header.status],
        header.data_size != 0 ==> ResponseHeader::announcement(header.status, header.data_size)
            == header.wire(false),
{
    assert forall|i: int| 1 <= i < 5 implies #[trigger] header.wire(false)[i] == (
    header.data_size as int / pow(256, (4 - i) as nat)) % 256 by {
        crate::be_bytes::most_significant_byte_first(header.data_size, i - 1);
    }
}

/// A header in the default form takes one byte, its status. One in the full form takes
/// five: the status, and four that weigh up to the size. Only a size over the limit is
/// refused.
pub proof fn response_header_reading(bytes: Seq<u8>, is_default: bool, max_data_size: usize)
    ensures
        ({
            let result = ResponseHeader::parse(bytes, is_default, max_data_size);
            let size = bytes[1] * pow(256, 3) + bytes[2] * pow(256, 2) + bytes[3] * pow(256, 1)
                + bytes[4];
            if bytes.len() < 1 || !is_default && bytes.len() < 5 {
                result == Err::<ResponseHeader, _>(
                    Error::Protocol("Not enough bytes to decode ResponseHeader"@),
                )
            } else if is_default {
                result == Ok::<_, Error<Seq<char>>>(
                    ResponseHeader { status: bytes[0], data_size: 0 },
                )
            } else if size > max_data_size {
                &&& result is Err
                &&& result->Err_0 matches Error::BufferOverflow { expected, limit }
                &&& expected == size
                &&& limit == max_data_size
            } else {
                &&& result is Ok
                &&& result->Ok_0.status == bytes[0]
                &&& result->Ok_0.data_size == size
            }
        }),
{
    crate::be_bytes::byte_powers();
    if bytes.len() >= 5 {
        crate::be_bytes::bytes_are_weighed(bytes.subrange(1, 5));
    }
}

} // verus!
