//! The header of a request.

use vstd::arithmetic::power::pow;
use vstd::prelude::*;
use vstd::slice::slice_subrange;

use crate::be_bytes::{be_bytes, be_value, push_be, read_be};
use crate::error::{outcome, Error, Result};

verus! {

/// Announces a request: what is asked, and how many bytes of payload follow.
#[derive(Debug, Clone, Copy, PartialEq, Eq, Structural)]
pub struct RequestHeader {
    pub command: u32,
    pub data_size: u32,
}

impl View for RequestHeader {
    type V = RequestHeader;

    open spec fn view(&self) -> RequestHeader {
        *self
    }
}

impl RequestHeader {
    /// Bytes that a request header takes.
    pub const REQUEST_HEADER_SIZE: usize = 8;

    /// The header on the wire.
    pub open spec fn wire(self) -> Seq<u8> {
        be_bytes(self.command) + be_bytes(self.data_size)
    }

    /// The header that the first bytes of `bytes` hold, whatever its size field says.
    pub open spec fn at_front(bytes: Seq<u8>) -> RequestHeader {
        RequestHeader {
            command: be_value(bytes.subrange(0, 4)),
            data_size: be_value(bytes.subrange(4, 8)),
        }
    }

    /// What reading a header from the front of `bytes` gives.
    pub open spec fn parse(bytes: Seq<u8>, max_data_size: usize) -> Result<
        RequestHeader,
        Error<Seq<char>>,
    > {
        let header = RequestHeader::at_front(bytes);
        if bytes.len() < RequestHeader::REQUEST_HEADER_SIZE {
            Err(Error::Protocol("Not enough bytes to decode RequestHeader"@))
        } else if header.data_size > max_data_size {
            Err(Error::BufferOverflow { expected: header.data_size as usize, limit: max_data_size })
        } else {
            Ok(header)
        }
    }

    pub fn new(command: u32, data_size: u32) -> (header: RequestHeader)
        ensures
            header == (RequestHeader { command, data_size }),
    {
        RequestHeader { command, data_size }
    }

    /// Bytes that an encoded header takes.
    pub fn encoded_len() -> (len: usize)
        ensures
            len == RequestHeader::REQUEST_HEADER_SIZE,
            len == 8,
    {
        RequestHeader::REQUEST_HEADER_SIZE
    }

    /// Appends the header to `buf`. Never fails.
    pub fn encode(&self, buf: &mut Vec<u8>) -> (result: Result<()>)
        ensures
            result is Ok,
            final(buf)@ == old(buf)@ + self.wire(),
            final(buf)@.len() == old(buf)@.len() + 8,
            forall|i: int|
                0 <= i < old(buf)@.len() ==> #[trigger] final(buf)@[i] == old(buf)@[i],
            forall|i: int|
                0 <= i < 4 ==> #[trigger] final(buf)@[old(buf)@.len() + i] == (self.command as int
                    / pow(256, (3 - i) as nat)) % 256,
            forall|i: int|
                4 <= i < 8 ==> #[trigger] final(buf)@[old(buf)@.len() + i] == (self.data_size as int
                    / pow(256, (7 - i) as nat)) % 256,
    {
        proof {
            request_header_layout(*self);
        }
        push_be(buf, self.command);
        push_be(buf, self.data_size);
        assert(buf@ =~= old(buf)@ + self.wire());
        Ok(())
    }

    /// Reads a header from the front of `buf` and moves `buf` past it.
    /// Refuses a header that announces more than `max_data_size` bytes, and leaves
    /// `buf` where it is when it fails.
    pub fn decode(buf: &mut &[u8], max_data_size: usize) -> (result: Result<RequestHeader>)
        ensures
            outcome(result) == RequestHeader::parse(old(buf)@, max_data_size),
            final(buf)@ == if result is Ok {
                old(buf)@.skip(RequestHeader::REQUEST_HEADER_SIZE as int)
            } else {
                old(buf)@
            },
            result matches Ok(header) ==> {
                &&& old(buf)@.len() >= 8
                &&& header.command == old(buf)@[0] * 16_777_216 + old(buf)@[1] * 65_536 + old(
                    buf,
                )@[2] * 256 + old(buf)@[3]
                &&& header.data_size == old(buf)@[4] * 16_777_216 + old(buf)@[5] * 65_536 + old(
                    buf,
                )@[6] * 256 + old(buf)@[7]
                &&& header.data_size <= max_data_size
                &&& final(buf)@ == old(buf)@.skip(8)
            },
            result is Err ==> final(buf)@ == old(buf)@,
    {
        let bytes: &[u8] = *buf;
        if bytes.len() < RequestHeader::REQUEST_HEADER_SIZE {
            return Err(Error::Protocol("Not enough bytes to decode RequestHeader".to_owned()));
        }
        let command: u32 = read_be(bytes, 0);
        let data_size: u32 = read_be(bytes, 4);
        if data_size as usize > max_data_size {
            return Err(
                Error::BufferOverflow { expected: data_size as usize, limit: max_data_size },
            );
        }
        *buf = slice_subrange(bytes, RequestHeader::REQUEST_HEADER_SIZE, bytes.len());
        Ok(RequestHeader { command, data_size })
    }
}

/// A decoded header is the one that was encoded, whatever bytes follow it,
/// as long as its size is within the limit.
pub proof fn request_header_round_trip(header: RequestHeader, rest: Seq<u8>, max_data_size: usize)
    requires
        header.data_size <= max_data_size,
    ensures
        header.wire().len() == RequestHeader::REQUEST_HEADER_SIZE,
        RequestHeader::parse(header.wire() + rest, max_data_size) == Ok::<
            RequestHeader,
            Error<Seq<char>>,
        >(header),
        (header.wire() + rest).skip(RequestHeader::REQUEST_HEADER_SIZE as int) == rest,
{
    let bytes = header.wire() + rest;
    crate::be_bytes::be_value_of_be_bytes(header.command);
    crate::be_bytes::be_value_of_be_bytes(header.data_size);
    assert(bytes.subrange(0, 4) =~= be_bytes(header.command));
    assert(bytes.subrange(4, 8) =~= be_bytes(header.data_size));
    assert(bytes.skip(RequestHeader::REQUEST_HEADER_SIZE as int) =~= rest);
}

/// Encoding a decoded header gives back the bytes that it was decoded from.
pub proof fn request_header_canonical(bytes: Seq<u8>, max_data_size: usize)
    requires
        RequestHeader::parse(bytes, max_data_size) is Ok,
    ensures
        RequestHeader::parse(bytes, max_data_size)->Ok_0.wire() == bytes.take(
            RequestHeader::REQUEST_HEADER_SIZE as int,
        ),
{
    crate::be_bytes::be_bytes_of_be_value(bytes.subrange(0, 4));
    crate::be_bytes::be_bytes_of_be_value(bytes.subrange(4, 8));
    assert(bytes.subrange(0, 4) + bytes.subrange(4, 8) =~= bytes.take(
        RequestHeader::REQUEST_HEADER_SIZE as int,
    ));
}

/// A header is eight bytes: the command and then the size, each with its most significant
/// byte first.
pub proof fn request_header_layout(header: RequestHeader)
    ensures
        header.wire().len() == 8,
        forall|i: int|
            0 <= i < 4 ==> #[trigger] header.wire()[i] == (header.command as int / pow(
                256,
                (3 - i) as nat,
            )) % 256,
        forall|i: int|
            4 <= i < 8 ==> #[trigger] header.wire()[i] == (header.data_size as int / pow(
                256,
                (7 - i) as nat,
            )) % 256,
{
    assert forall|i: int| 0 <= i < 4 implies #[trigger] header.wire()[i] == (header.command as int
        / pow(256, (3 - i) as nat)) % 256 by {
        crate::be_bytes::most_significant_byte_first(header.command, i);
    }
    assert forall|i: int| 4 <= i < 8 implies #[trigger] header.wire()[i] == (header.data_size as int
        / pow(256, (7 - i) as nat)) % 256 by {
        crate::be_bytes::most_significant_byte_first(header.data_size, i - 4);
    }
}

/// Eight bytes are needed for a header, and no more are looked at. The first four weigh up
/// to the command and the others to the size, and only a size over the limit is refused.
pub proof fn request_header_reading(bytes: Seq<u8>, max_data_size: usize)
    ensures
        ({
            let result = RequestHeader::parse(bytes, max_data_size);
            let command = bytes[0] * pow(256, 3) + bytes[1] * pow(256, 2) + bytes[2] * pow(256, 1)
                + bytes[3];
            let size = bytes[4] * pow(256, 3) + bytes[5] * pow(256, 2) + bytes[6] * pow(256, 1)
                + bytes[7];
            if bytes.len() < 8 {
                result == Err::<RequestHeader, _>(
                    Error::Protocol("Not enough bytes to decode RequestHeader"@),
                )
            } else if size > max_data_size {
                &&& result is Err
                &&& result->Err_0 matches Error::BufferOverflow { expected, limit }
                &&& expected == size
                &&& limit == max_data_size
            } else {
                &&& result is Ok
                &&& result->Ok_0.command == command
                &&& result->Ok_0.data_size == size
            }
        }),
{
    crate::be_bytes::byte_powers();
    if bytes.len() >= 8 {
        crate::be_bytes::bytes_are_weighed(bytes.subrange(0, 4));
        crate::be_bytes::bytes_are_weighed(bytes.subrange(4, 8));
    }
}

} // verus!
