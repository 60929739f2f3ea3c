//! The client's side of the protocol: sending a request and receiving its response.

use vstd::arithmetic::power::pow;
use vstd::prelude::*;
use vstd::slice::{slice_subrange, slice_to_vec};

use crate::duration::{Duration, NANOS_PER_MILLI};
use crate::error::Error;
use crate::protocol_structs::STATUS_OK;
use crate::request_header::{request_header_layout, RequestHeader};
use crate::response_header::ResponseHeader;
use crate::text::{decimal, push_decimal};
use crate::timeout_config::TimeoutConfig;
use crate::transport::{
    payload_size_field, size_field, Action, Event, Progress, SIZE_WAIT_MILLIS,
};

verus! {

/// What a client runs on. The two word their errors differently.
#[derive(Debug, Clone, Copy, PartialEq, Eq, Structural)]
pub enum Transport {
    Tcp,
    Tls,
}

impl Transport {
    /// The error of a timeout.
    pub open spec fn late(self, tcp: Seq<char>, tls: Seq<char>) -> Error<Seq<char>> {
        match self {
            Transport::Tcp => Error::Timeout(tcp),
            Transport::Tls => Error::Msg(tls),
        }
    }

    /// The error of a response whose status is not success.
    pub open spec fn bad_status(self, status: u8) -> Error<Seq<char>> {
        match self {
            Transport::Tcp => Error::ResponseError { status },
            Transport::Tls => Error::Msg("Response status is not Ok: "@ + decimal(status as nat)),
        }
    }

    /// The error of a response whose payload is over the limit.
    pub open spec fn oversized(self, expected: usize, limit: usize) -> Error<Seq<char>> {
        match self {
            Transport::Tcp => Error::BufferOverflow { expected, limit },
            Transport::Tls => Error::Msg("Data size is more then max buffer size"@),
        }
    }

    /// The error of a request without a connection.
    pub open spec fn unconnected(self) -> Error<Seq<char>> {
        match self {
            Transport::Tcp => Error::NotConnected,
            Transport::Tls => Error::Msg("Not connected"@),
        }
    }

    fn late_error(self, tcp: &str, tls: &str) -> (error: Error)
        ensures
            error@ == self.late(tcp@, tls@),
    {
        match self {
            Transport::Tcp => Error::Timeout(tcp.to_owned()),
            Transport::Tls => Error::Msg(tls.to_owned()),
        }
    }

    fn bad_status_error(self, status: u8) -> (error: Error)
        ensures
            error@ == self.bad_status(status),
    {
        match self {
            Transport::Tcp => Error::ResponseError { status },
            Transport::Tls => {
                let mut text = "Response status is not Ok: ".to_owned();
                push_decimal(&mut text, status as usize);
                Error::Msg(text)
            },
        }
    }

    fn oversized_error(self, expected: usize, limit: usize) -> (error: Error)
        ensures
            error@ == self.oversized(expected, limit),
    {
        match self {
            Transport::Tcp => Error::BufferOverflow { expected, limit },
            Transport::Tls => Error::Msg("Data size is more then max buffer size".to_owned()),
        }
    }

    /// The error of a request without a connection.
    pub fn unconnected_error(self) -> (error: Error)
        ensures
            error@ == self.unconnected(),
    {
        match self {
            Transport::Tcp => Error::NotConnected,
            Transport::Tls => Error::Msg("Not connected".to_owned()),
        }
    }
}

/// How far an exchange has come.
#[derive(Debug, Clone, Copy, PartialEq, Eq, Structural)]
pub enum ExchangeStage {
    /// The connection was used before. Nothing may be left on it but a status that is owed.
    Quiet,
    /// The request header is to be written.
    RequestHeader,
    /// The request header is to be flushed.
    FlushRequestHeader,
    /// The server's answer to the header is awaited.
    RequestAnswer,
    /// The request payload is to be written.
    RequestData,
    /// The request payload is to be flushed.
    FlushRequestData,
    /// The status of the response is awaited.
    ResponseStatus,
    /// A size may begin to follow the status. The header of an empty response is the
    /// status alone.
    ResponseSize,
    /// The rest of the size is awaited.
    ResponseSizeRest { first: u8 },
    /// The response header is to be acknowledged.
    Acknowledge { data_size: usize },
    /// The acknowledgement is to be flushed.
    FlushAcknowledge { data_size: usize },
    /// The response payload is awaited.
    ResponseData { data_size: usize },
}

/// Sends one request on a connection and receives its response.
///
/// A response is a status, and a size and a payload where there is one. The size comes
/// with the status, so its first byte is waited for only shortly; none means an empty
/// payload. A size that comes later than that is taken for absent. It makes the next
/// exchange fail that finds it on the connection.
///
/// Without an answer (`command_has_answer` is false) the response is not waited for. Its
/// status is then owed: it comes before anything else on the connection, and the next
/// exchange passes over it.
#[derive(Debug)]
pub struct Exchange<B = Vec<u8>> {
    pub transport: Transport,
    pub command: u32,
    pub data: B,
    pub command_has_answer: bool,
    pub status_owed: bool,
    pub max_buffer_size: usize,
    pub timeouts: TimeoutConfig,
    pub stage: ExchangeStage,
}

impl View for Exchange {
    type V = Exchange<Seq<u8>>;

    open spec fn view(&self) -> Exchange<Seq<u8>> {
        Exchange {
            transport: self.transport,
            command: self.command,
            data: self.data@,
            command_has_answer: self.command_has_answer,
            status_owed: self.status_owed,
            max_buffer_size: self.max_buffer_size,
            timeouts: self.timeouts,
            stage: self.stage,
        }
    }
}

impl Exchange<Seq<u8>> {
    /// The request header.
    pub open spec fn header(self) -> RequestHeader {
        RequestHeader { command: self.command, data_size: size_field(self.data.len()) }
    }

    /// How many bytes there are up to the answer to the request header.
    pub open spec fn answer_len(self) -> usize {
        if self.status_owed {
            2
        } else {
            1
        }
    }

    /// The I/O that is due.
    pub open spec fn due(self) -> Action<Seq<u8>, nat> {
        match self.stage {
            ExchangeStage::Quiet => Action::Read { len: 1, timeout: Some(0) },
            ExchangeStage::RequestHeader => Action::Write {
                bytes: self.header().wire(),
                timeout: Some(self.timeouts.write@),
            },
            ExchangeStage::RequestAnswer => Action::Read {
                len: self.answer_len(),
                timeout: Some(self.timeouts.read_header@),
            },
            ExchangeStage::RequestData => Action::Write {
                bytes: self.data,
                timeout: Some(self.timeouts.write@),
            },
            ExchangeStage::ResponseStatus => Action::Read {
                len: ResponseHeader::DEFAULT_RESPONSE_HEADER_SIZE,
                timeout: Some(self.timeouts.read_header@),
            },
            ExchangeStage::ResponseSize => Action::Read {
                len: 1,
                timeout: Some((SIZE_WAIT_MILLIS * NANOS_PER_MILLI) as nat),
            },
            ExchangeStage::ResponseSizeRest { .. } => Action::Read {
                len: 3,
                timeout: Some(self.timeouts.read_header@),
            },
            ExchangeStage::Acknowledge { .. } => Action::Write {
                bytes: ResponseHeader::announcement(STATUS_OK, 0),
                timeout: Some(self.timeouts.write@),
            },
            ExchangeStage::ResponseData { data_size } => Action::Read {
                len: data_size,
                timeout: Some(self.timeouts.read_data@),
            },
            ExchangeStage::FlushRequestHeader => Action::Flush,
            ExchangeStage::FlushRequestData => Action::Flush,
            ExchangeStage::FlushAcknowledge { .. } => Action::Flush,
        }
    }

    /// The error of a timeout, where it is one.
    pub open spec fn late(self) -> Option<Error<Seq<char>>> {
        match self.stage {
            ExchangeStage::RequestHeader => Some(
                self.transport.late("Sending request header"@, "Timeout sending request header"@),
            ),
            ExchangeStage::RequestAnswer | ExchangeStage::ResponseStatus
            | ExchangeStage::ResponseSizeRest { .. } => Some(
                self.transport.late(
                    "Waiting for response header"@,
                    "Timeout waiting for response header"@,
                ),
            ),
            ExchangeStage::RequestData => Some(
                self.transport.late("Sending message data"@, "Timeout sending message data"@),
            ),
            ExchangeStage::Acknowledge { .. } => Some(
                self.transport.late("Sending response header"@, "Timeout sending response header"@),
            ),
            ExchangeStage::ResponseData { .. } => Some(
                self.transport.late(
                    "Waiting for message data"@,
                    "Timeout waiting for message data"@,
                ),
            ),
            _ => None,
        }
    }

    pub open spec fn at(self, stage: ExchangeStage) -> Exchange<Seq<u8>> {
        Exchange { stage, ..self }
    }

    /// What follows the status that is owed, if one is.
    pub open spec fn past_owed(self, bytes: Seq<u8>) -> Seq<u8> {
        if self.status_owed && bytes.len() > 0 {
            bytes.skip(1)
        } else {
            bytes
        }
    }

    /// Where the machine stands once the status of the response has been read as `bytes`.
    pub open spec fn judged(self, bytes: Seq<u8>) -> Progress<
        Exchange<Seq<u8>>,
        Seq<u8>,
        Seq<char>,
    > {
        match ResponseHeader::parse(bytes, true, usize::MAX) {
            Err(error) => Progress::Finished(Err(error)),
            Ok(header) => if header.status != STATUS_OK {
                Progress::Finished(Err(self.transport.bad_status(header.status)))
            } else {
                Progress::Pending(self.at(ExchangeStage::ResponseSize))
            },
        }
    }

    /// Where the machine stands once the size of the response has been read as `bytes`.
    pub open spec fn announced(self, bytes: Seq<u8>) -> Progress<
        Exchange<Seq<u8>>,
        Seq<u8>,
        Seq<char>,
    > {
        match ResponseHeader::parse(seq![STATUS_OK] + bytes, false, usize::MAX) {
            Err(error) => Progress::Finished(Err(error)),
            Ok(header) => {
                let data_size = header.data_size as usize;
                if data_size > self.max_buffer_size {
                    Progress::Finished(
                        Err(self.transport.oversized(data_size, self.max_buffer_size)),
                    )
                } else {
                    Progress::Pending(self.at(ExchangeStage::Acknowledge { data_size }))
                }
            },
        }
    }

    /// Where the machine stands after `event`. An event that does not answer the I/O
    /// that is due changes nothing.
    pub open spec fn after(self, event: Event<Seq<u8>, Seq<char>>) -> Progress<
        Exchange<Seq<u8>>,
        Seq<u8>,
        Seq<char>,
    > {
        match (self.stage, event) {
            (_, Event::Failed(text)) => Progress::Finished(Err(Error::Io(text))),
            (ExchangeStage::Quiet, Event::TimedOut) => Progress::Pending(
                self.at(ExchangeStage::RequestHeader),
            ),
            (ExchangeStage::Quiet, Event::Received(_)) => if self.status_owed {
                Progress::Pending(Exchange { status_owed: false, ..self })
            } else {
                Progress::Finished(Err(Error::Protocol("Unexpected data on the connection"@)))
            },
            // No size follows the status.
            (ExchangeStage::ResponseSize, Event::TimedOut) => Progress::Pending(
                self.at(ExchangeStage::Acknowledge { data_size: 0 }),
            ),
            (_, Event::TimedOut) => match self.late() {
                Some(error) => Progress::Finished(Err(error)),
                None => Progress::Pending(self),
            },
            (ExchangeStage::RequestHeader, Event::Completed) => Progress::Pending(
                self.at(ExchangeStage::FlushRequestHeader),
            ),
            (ExchangeStage::FlushRequestHeader, Event::Completed) => Progress::Pending(
                self.at(ExchangeStage::RequestAnswer),
            ),
            (ExchangeStage::RequestAnswer, Event::Received(bytes)) => match ResponseHeader::parse(
                self.past_owed(bytes),
                true,
                usize::MAX,
            ) {
                Ok(_) => Progress::Pending(self.at(ExchangeStage::RequestData)),
                Err(error) => Progress::Finished(Err(error)),
            },
            (ExchangeStage::RequestData, Event::Completed) => Progress::Pending(
                self.at(ExchangeStage::FlushRequestData),
            ),
            (ExchangeStage::FlushRequestData, Event::Completed) => Progress::Pending(
                self.at(
                    if self.command_has_answer {
                        ExchangeStage::ResponseStatus
                    } else {
                        ExchangeStage::Acknowledge { data_size: 0 }
                    },
                ),
            ),
            (ExchangeStage::ResponseStatus, Event::Received(bytes)) => self.judged(bytes),
            (ExchangeStage::ResponseSize, Event::Received(bytes)) if bytes.len()
                >= 1 => Progress::Pending(
                self.at(ExchangeStage::ResponseSizeRest { first: bytes[0] }),
            ),
            (ExchangeStage::ResponseSizeRest { first }, Event::Received(bytes)) => self.announced(
                seq![first] + bytes,
            ),
            (ExchangeStage::Acknowledge { data_size }, Event::Completed) => Progress::Pending(
                self.at(ExchangeStage::FlushAcknowledge { data_size }),
            ),
            (ExchangeStage::FlushAcknowledge { data_size }, Event::Completed) => if data_size
                == 0 {
                Progress::Finished(Ok(seq![]))
            } else {
                Progress::Pending(self.at(ExchangeStage::ResponseData { data_size }))
            },
            (ExchangeStage::ResponseData { .. }, Event::Received(bytes)) => Progress::Finished(
                Ok(bytes),
            ),
            _ => Progress::Pending(self),
        }
    }
}

impl Exchange {
    fn header_bytes(&self) -> (bytes: Vec<u8>)
        ensures
            bytes@ == self@.header().wire(),
    {
        let mut bytes: Vec<u8> = Vec::with_capacity(RequestHeader::encoded_len());
        let header = RequestHeader::new(self.command, payload_size_field(self.data.len()));
        let _ = header.encode(&mut bytes);
        assert(bytes@ =~= self@.header().wire());
        bytes
    }

    fn bytes_to_answer(&self) -> (len: usize)
        ensures
            len == self@.answer_len(),
    {
        if self.status_owed {
            2
        } else {
            1
        }
    }

    /// The I/O that is due.
    pub fn action(&self) -> (action: Action)
        ensures
            action@ == self@.due(),
    {
        match self.stage {
            ExchangeStage::Quiet => Action::Read { len: 1, timeout: Some(Duration::zero()) },
            ExchangeStage::RequestHeader => Action::Write {
                bytes: self.header_bytes(),
                timeout: Some(self.timeouts.write),
            },
            ExchangeStage::RequestAnswer => Action::Read {
                len: self.bytes_to_answer(),
                timeout: Some(self.timeouts.read_header),
            },
            ExchangeStage::RequestData => Action::Write {
                bytes: slice_to_vec(self.data.as_slice()),
                timeout: Some(self.timeouts.write),
            },
            ExchangeStage::ResponseStatus => Action::Read {
                len: ResponseHeader::encoded_len(true, self.command_has_answer),
                timeout: Some(self.timeouts.read_header),
            },
            ExchangeStage::ResponseSize => Action::Read {
                len: 1,
                timeout: Some(Duration::from_millis(SIZE_WAIT_MILLIS)),
            },
            ExchangeStage::ResponseSizeRest { .. } => Action::Read {
                len: 3,
                timeout: Some(self.timeouts.read_header),
            },
            ExchangeStage::Acknowledge { .. } => Action::Write {
                bytes: ResponseHeader::announce(STATUS_OK, 0),
                timeout: Some(self.timeouts.write),
            },
            ExchangeStage::ResponseData { data_size } => Action::Read {
                len: data_size,
                timeout: Some(self.timeouts.read_data),
            },
            ExchangeStage::FlushRequestHeader => Action::Flush,
            ExchangeStage::FlushRequestData => Action::Flush,
            ExchangeStage::FlushAcknowledge { .. } => Action::Flush,
        }
    }

    fn late(self) -> (progress: Progress<Exchange, Vec<u8>>)
        ensures
            progress@ == self@.after(Event::TimedOut),
    {
        let error = match self.stage {
            ExchangeStage::RequestHeader => self.transport.late_error(
                "Sending request header",
                "Timeout sending request header",
            ),
            ExchangeStage::RequestAnswer | ExchangeStage::ResponseStatus
            | ExchangeStage::ResponseSizeRest { .. } => self.transport.late_error(
                "Waiting for response header",
                "Timeout waiting for response header",
            ),
            ExchangeStage::RequestData => self.transport.late_error(
                "Sending message data",
                "Timeout sending message data",
            ),
            ExchangeStage::Acknowledge { .. } => self.transport.late_error(
                "Sending response header",
                "Timeout sending response header",
            ),
            ExchangeStage::ResponseData { .. } => self.transport.late_error(
                "Waiting for message data",
                "Timeout waiting for message data",
            ),
            ExchangeStage::Quiet => {
                return Progress::Pending(Exchange { stage: ExchangeStage::RequestHeader, ..self });
            },
            ExchangeStage::ResponseSize => {
                let stage = ExchangeStage::Acknowledge { data_size: 0 };
                return Progress::Pending(Exchange { stage, ..self });
            },
            _ => {
                return Progress::Pending(self);
            },
        };
        Progress::Finished(Err(error))
    }

    fn received(self, bytes: Vec<u8>) -> (progress: Progress<Exchange, Vec<u8>>)
        ensures
            progress@ == self@.after(Event::Received(bytes@)),
    {
        match self.stage {
            ExchangeStage::Quiet => {
                if self.status_owed {
                    Progress::Pending(Exchange { status_owed: false, ..self })
                } else {
                    Progress::Finished(
                        Err(Error::Protocol("Unexpected data on the connection".to_owned())),
                    )
                }
            },
            ExchangeStage::RequestAnswer => {
                let mut rest: &[u8] = bytes.as_slice();
                if self.status_owed && bytes.len() > 0 {
                    rest = slice_subrange(rest, 1, bytes.len());
                }
                assert(rest@ =~= self@.past_owed(bytes@));
                match ResponseHeader::decode(&mut rest, true, usize::MAX) {
                    Ok(_) => Progress::Pending(
                        Exchange { stage: ExchangeStage::RequestData, ..self },
                    ),
                    Err(error) => Progress::Finished(Err(error)),
                }
            },
            ExchangeStage::ResponseStatus => {
                let mut rest: &[u8] = bytes.as_slice();
                match ResponseHeader::decode(&mut rest, true, usize::MAX) {
                    Err(error) => Progress::Finished(Err(error)),
                    Ok(header) => {
                        if header.status != STATUS_OK {
                            return Progress::Finished(
                                Err(self.transport.bad_status_error(header.status)),
                            );
                        }
                        Progress::Pending(Exchange { stage: ExchangeStage::ResponseSize, ..self })
                    },
                }
            },
            ExchangeStage::ResponseSize => {
                if bytes.len() < 1 {
                    return Progress::Pending(self);
                }
                let stage = ExchangeStage::ResponseSizeRest { first: bytes[0] };
                Progress::Pending(Exchange { stage, ..self })
            },
            ExchangeStage::ResponseSizeRest { first } => {
                let mut whole: Vec<u8> = ResponseHeader::announce(STATUS_OK, 0);
                whole.push(first);
                whole.extend_from_slice(bytes.as_slice());
                assert(whole@ =~= seq![STATUS_OK] + (seq![first] + bytes@));
                let mut rest: &[u8] = whole.as_slice();
                // The limit of this client is applied below, with its own error.
                match ResponseHeader::decode(&mut rest, false, usize::MAX) {
                    Err(error) => Progress::Finished(Err(error)),
                    Ok(header) => {
                        let data_size: usize = header.data_size as usize;
                        if data_size > self.max_buffer_size {
                            Progress::Finished(
                                Err(
                                    self.transport.oversized_error(data_size, self.max_buffer_size),
                                ),
                            )
                        } else {
                            let stage = ExchangeStage::Acknowledge { data_size };
                            Progress::Pending(Exchange { stage, ..self })
                        }
                    },
                }
            },
            ExchangeStage::ResponseData { .. } => Progress::Finished(Ok(bytes)),
            _ => Progress::Pending(self),
        }
    }

    fn completed(self) -> (progress: Progress<Exchange, Vec<u8>>)
        ensures
            progress@ == self@.after(Event::Completed),
    {
        let stage = match self.stage {
            ExchangeStage::RequestHeader => ExchangeStage::FlushRequestHeader,
            ExchangeStage::FlushRequestHeader => ExchangeStage::RequestAnswer,
            ExchangeStage::RequestData => ExchangeStage::FlushRequestData,
            ExchangeStage::FlushRequestData => {
                if self.command_has_answer {
                    ExchangeStage::ResponseStatus
                } else {
                    ExchangeStage::Acknowledge { data_size: 0 }
                }
            },
            ExchangeStage::Acknowledge { data_size } => ExchangeStage::FlushAcknowledge {
                data_size,
            },
            ExchangeStage::FlushAcknowledge { data_size } => {
                if data_size == 0 {
                    return Progress::Finished(Ok(Vec::new()));
                }
                ExchangeStage::ResponseData { data_size }
            },
            stage => stage,
        };
        Progress::Pending(Exchange { stage, ..self })
    }

    /// Takes in what came of the I/O that was due.
    pub fn advance(self, event: Event) -> (progress: Progress<Exchange, Vec<u8>>)
        ensures
            progress@ == self@.after(event@),
    {
        match event {
            Event::Failed(text) => Progress::Finished(Err(Error::Io(text))),
            Event::TimedOut => self.late(),
            Event::Received(bytes) => self.received(bytes),
            Event::Completed => self.completed(),
        }
    }
}

/// An exchange from its first byte to the response, where all goes well. The header of
/// eight bytes holds the command and the number of payload bytes, the payload follows the
/// server's answer as it was given, and the response is acknowledged with a status of one.
/// Each read and each write has its own limit.
pub proof fn exchanges_run_through(
    exchange: Exchange<Seq<u8>>,
    answer: Seq<u8>,
    first: u8,
    rest: Seq<u8>,
    response: Seq<u8>,
)
    requires
        exchange.stage is RequestHeader,
        answer.len() == if exchange.status_owed {
            2nat
        } else {
            1nat
        },
        rest.len() == 3,
    ensures
        ({
            let done = Event::Completed;
            let ok: Seq<u8> = seq![1];
            let write = Some(exchange.timeouts.write@);
            let read_header = Some(exchange.timeouts.read_header@);
            let flushing_header = exchange.after(done)->Pending_0;
            let answering = flushing_header.after(done)->Pending_0;
            let sending = answering.after(Event::Received(answer))->Pending_0;
            let flushing_data = sending.after(done)->Pending_0;
            let sent = flushing_data.after(done)->Pending_0;
            let sized = sent.after(Event::Received(ok))->Pending_0;
            let sizing = sized.after(Event::Received(seq![first]))->Pending_0;
            let size = first * 16_777_216 + rest[0] * 65_536 + rest[1] * 256 + rest[2];
            let acknowledging = sizing.after(Event::Received(rest))->Pending_0;
            let flushing = acknowledging.after(done)->Pending_0;
            let receiving = flushing.after(done)->Pending_0;
            let empty = if exchange.command_has_answer {
                sized.after(Event::TimedOut)->Pending_0
            } else {
                sent
            };
            // The request.
            &&& exchange.due() matches Action::Write { bytes, timeout }
            &&& timeout == write
            &&& bytes.len() == 8
            &&& forall|i: int|
                0 <= i < 4 ==> #[trigger] bytes[i] == (exchange.command as int / pow(
                    256,
                    (3 - i) as nat,
                )) % 256
            &&& forall|i: int|
                4 <= i < 8 ==> #[trigger] bytes[i] == (exchange.data.len() as int / pow(
                    256,
                    (7 - i) as nat,
                )) % 256
            &&& exchange.after(done) is Pending
            &&& flushing_header.due() is Flush
            &&& flushing_header.after(done) is Pending
            &&& answering.due() == (Action::<Seq<u8>, nat>::Read {
                len: if exchange.status_owed {
                    2
                } else {
                    1
                },
                timeout: read_header,
            })
            &&& answering.after(Event::Received(answer)) is Pending
            &&& sending.due() == (Action::Write { bytes: exchange.data, timeout: write })
            &&& sending.after(done) is Pending
            &&& flushing_data.due() is Flush
            &&& flushing_data.after(done) is Pending
            // The response, where there is one.
            &&& exchange.command_has_answer ==> {
                &&& sent.due() == (Action::<Seq<u8>, nat>::Read { len: 1, timeout: read_header })
                &&& sent.after(Event::Received(ok)) is Pending
                &&& sized.due() == (Action::<Seq<u8>, nat>::Read {
                    len: 1,
                    timeout: Some(10_000_000),
                })
                &&& sized.after(Event::TimedOut) is Pending
                &&& sized.after(Event::Received(seq![first])) is Pending
                &&& sizing.due() == (Action::<Seq<u8>, nat>::Read { len: 3, timeout: read_header })
                &&& size <= exchange.max_buffer_size ==> {
                    &&& sizing.after(Event::Received(rest)) is Pending
                    &&& acknowledging.due() == (Action::Write { bytes: ok, timeout: write })
                    &&& acknowledging.after(done) is Pending
                    &&& flushing.due() is Flush
                }
                &&& 0 < size <= exchange.max_buffer_size ==> {
                    &&& flushing.after(done) is Pending
                    &&& receiving.due() matches Action::Read { len, timeout }
                    &&& len == size
                    &&& timeout == Some(exchange.timeouts.read_data@)
                    &&& receiving.after(Event::Received(response)) == Progress::<
                        Exchange<Seq<u8>>,
                        Seq<u8>,
                        Seq<char>,
                    >::Finished(Ok(response))
                }
                &&& size == 0 ==> flushing.after(done) == Progress::<
                    Exchange<Seq<u8>>,
                    Seq<u8>,
                    Seq<char>,
                >::Finished(Ok(Seq::empty()))
            }
            // An empty response, and one that is not waited for.
            &&& empty.due() == (Action::Write { bytes: ok, timeout: write })
            &&& empty.after(done) is Pending
            &&& empty.after(done)->Pending_0.due() is Flush
            &&& empty.after(done)->Pending_0.after(done) == Progress::<
                Exchange<Seq<u8>>,
                Seq<u8>,
                Seq<char>,
            >::Finished(Ok(Seq::empty()))
        }),
{
    let bytes = exchange.header().wire();
    request_header_layout(exchange.header());
    crate::be_bytes::byte_powers();
    assert forall|i: int| 4 <= i < 8 implies #[trigger] bytes[i] == (exchange.data.len() as int
        / pow(256, (7 - i) as nat)) % 256 by {
        size_bytes_are_low_bytes(exchange.data.len(), i - 4);
    }
    let sizing = exchange.at(ExchangeStage::ResponseSizeRest { first });
    let whole = seq![STATUS_OK] + (seq![first] + rest);
    crate::response_header::response_header_reading(whole, false, usize::MAX);
    assert(sizing.announced(seq![first] + rest) == sizing.after(Event::Received(rest)));
    crate::response_header::response_header_reading(
        exchange.past_owed(answer),
        true,
        usize::MAX,
    );
    crate::response_header::response_header_reading(seq![1u8], true, usize::MAX);
    assert(ResponseHeader::announcement(STATUS_OK, 0) =~= seq![1u8]);
}

/// The low four bytes of a size are those of its low 32 bits.
pub proof fn size_bytes_are_low_bytes(len: nat, i: int)
    requires
        0 <= i < 4,
    ensures
        (size_field(len) as int / pow(256, (3 - i) as nat)) % 256 == (len as int / pow(
            256,
            (3 - i) as nat,
        )) % 256,
{
    crate::be_bytes::byte_powers();
    let low: int = len as int % 0x1_0000_0000;
    let high: int = len as int / 0x1_0000_0000;
    assert(len == high * 0x1_0000_0000 + low);
    if i == 0 {
        assert(len as int / 16_777_216 == high * 256 + low / 16_777_216);
    } else if i == 1 {
        assert(len as int / 65_536 == high * 65_536 + low / 65_536);
    } else if i == 2 {
        assert(len as int / 256 == high * 16_777_216 + low / 256);
    }
}

/// A connection that was used before is looked at first, without waiting. Where it is
/// silent the request follows. One byte is passed over where a status is owed, and no
/// more than one; any other is an error.
pub proof fn used_connections_are_looked_at(exchange: Exchange<Seq<u8>>, bytes: Seq<u8>)
    requires
        exchange.stage is Quiet,
    ensures
        exchange.due() == (Action::<Seq<u8>, nat>::Read { len: 1, timeout: Some(0) }),
        exchange.after(Event::TimedOut) == Progress::<
            Exchange<Seq<u8>>,
            Seq<u8>,
            Seq<char>,
        >::Pending(Exchange { stage: ExchangeStage::RequestHeader, ..exchange }),
        exchange.status_owed ==> exchange.after(Event::Received(bytes)) == Progress::<
            Exchange<Seq<u8>>,
            Seq<u8>,
            Seq<char>,
        >::Pending(Exchange { status_owed: false, ..exchange }),
        !exchange.status_owed ==> exchange.after(Event::Received(bytes)) == Progress::<
            Exchange<Seq<u8>>,
            Seq<u8>,
            Seq<char>,
        >::Finished(Err(Error::Protocol("Unexpected data on the connection"@))),
{
}

/// Every failure of the transport ends an exchange with an I/O error.
pub proof fn exchanges_report_failures(exchange: Exchange<Seq<u8>>, text: Seq<char>)
    ensures
        exchange.after(Event::Failed(text)) == Progress::<
            Exchange<Seq<u8>>,
            Seq<u8>,
            Seq<char>,
        >::Finished(Err(Error::Io(text))),
{
}

/// The error of a limit that ran out tells what was waited for. The size of a response is
/// the one thing that may fail to come.
pub proof fn exchanges_report_timeouts(exchange: Exchange<Seq<u8>>)
    ensures
        ({
            let late = exchange.after(Event::TimedOut);
            let tcp = exchange.transport is Tcp;
            match exchange.stage {
                ExchangeStage::RequestHeader => late == Progress::<
                    Exchange<Seq<u8>>,
                    Seq<u8>,
                    Seq<char>,
                >::Finished(
                    Err(
                        if tcp {
                            Error::Timeout("Sending request header"@)
                        } else {
                            Error::Msg("Timeout sending request header"@)
                        },
                    ),
                ),
                ExchangeStage::RequestAnswer | ExchangeStage::ResponseStatus
                | ExchangeStage::ResponseSizeRest { .. } => late == Progress::<
                    Exchange<Seq<u8>>,
                    Seq<u8>,
                    Seq<char>,
                >::Finished(
                    Err(
                        if tcp {
                            Error::Timeout("Waiting for response header"@)
                        } else {
                            Error::Msg("Timeout waiting for response header"@)
                        },
                    ),
                ),
                ExchangeStage::RequestData => late == Progress::<
                    Exchange<Seq<u8>>,
                    Seq<u8>,
                    Seq<char>,
                >::Finished(
                    Err(
                        if tcp {
                            Error::Timeout("Sending message data"@)
                        } else {
                            Error::Msg("Timeout sending message data"@)
                        },
                    ),
                ),
                ExchangeStage::Acknowledge { .. } => late == Progress::<
                    Exchange<Seq<u8>>,
                    Seq<u8>,
                    Seq<char>,
                >::Finished(
                    Err(
                        if tcp {
                            Error::Timeout("Sending response header"@)
                        } else {
                            Error::Msg("Timeout sending response header"@)
                        },
                    ),
                ),
                ExchangeStage::ResponseData { .. } => late == Progress::<
                    Exchange<Seq<u8>>,
                    Seq<u8>,
                    Seq<char>,
                >::Finished(
                    Err(
                        if tcp {
                            Error::Timeout("Waiting for message data"@)
                        } else {
                            Error::Msg("Timeout waiting for message data"@)
                        },
                    ),
                ),
                _ => late is Pending,
            }
        }),
{
}

/// A response whose status is not one, or whose payload is over the limit, is refused, and
/// only such a response.
pub proof fn responses_are_judged(
    exchange: Exchange<Seq<u8>>,
    status: u8,
    first: u8,
    rest: Seq<u8>,
)
    requires
        rest.len() == 3,
    ensures
        exchange.stage is ResponseStatus && status != 1 ==> exchange.after(
            Event::Received(seq![status]),
        ) == Progress::<Exchange<Seq<u8>>, Seq<u8>, Seq<char>>::Finished(
            Err(
                match exchange.transport {
                    Transport::Tcp => Error::ResponseError { status },
                    Transport::Tls => Error::Msg(
                        "Response status is not Ok: "@ + decimal(status as nat),
                    ),
                },
            ),
        ),
        exchange.stage is ResponseStatus && status == 1 ==> exchange.after(
            Event::Received(seq![status]),
        ) is Pending,
        exchange.stage == (ExchangeStage::ResponseSizeRest { first }) ==> {
            let size = first * 16_777_216 + rest[0] * 65_536 + rest[1] * 256 + rest[2];
            let read = exchange.after(Event::Received(rest));
            if size <= exchange.max_buffer_size {
                read is Pending
            } else {
                &&& read matches Progress::Finished(Err(error))
                &&& exchange.transport is Tls ==> error == Error::Msg(
                    "Data size is more then max buffer size"@,
                )
                &&& exchange.transport is Tcp ==> {
                    &&& error matches Error::BufferOverflow { expected, limit }
                    &&& expected == size
                    &&& limit == exchange.max_buffer_size
                }
            }
        },
{
    crate::be_bytes::byte_powers();
    crate::response_header::response_header_reading(seq![status], true, usize::MAX);
    crate::response_header::response_header_reading(
        seq![STATUS_OK] + (seq![first] + rest),
        false,
        usize::MAX,
    );
}

/// Whatever happens, an exchange keeps its request, its limits and its transport, and an
/// event that answers something else than what is due leaves it as it is.
pub proof fn exchanges_keep_their_request(
    exchange: Exchange<Seq<u8>>,
    event: Event<Seq<u8>, Seq<char>>,
)
    ensures
        exchange.after(event) matches Progress::Pending(next) ==> {
            &&& next.transport == exchange.transport
            &&& next.command == exchange.command
            &&& next.data == exchange.data
            &&& next.command_has_answer == exchange.command_has_answer
            &&& next.max_buffer_size == exchange.max_buffer_size
            &&& next.timeouts == exchange.timeouts
            &&& next.status_owed != exchange.status_owed ==> exchange.stage is Quiet
        },
        event is Completed && exchange.due() is Read || event is Received && !(
        exchange.due() is Read) ==> exchange.after(event) == Progress::<
            Exchange<Seq<u8>>,
            Seq<u8>,
            Seq<char>,
        >::Pending(exchange),
{
}

/// Contracts speak of an exchange field by field.
pub proof fn exchanges_are_viewed_whole(exchange: Exchange)
    ensures
        exchange@.transport == exchange.transport,
        exchange@.command == exchange.command,
        exchange@.data == exchange.data@,
        exchange@.command_has_answer == exchange.command_has_answer,
        exchange@.status_owed == exchange.status_owed,
        exchange@.max_buffer_size == exchange.max_buffer_size,
        exchange@.timeouts == exchange.timeouts,
        exchange@.stage == exchange.stage,
{
}

/// A header that is cut short is refused, and a byte that is missing where a size may begin
/// is waited for again. Bytes beyond what was asked for are not looked at.
pub proof fn short_answers_are_refused(exchange: Exchange<Seq<u8>>, bytes: Seq<u8>)
    ensures
        ({
            let read = exchange.after(Event::Received(bytes));
            let cut = Progress::<Exchange<Seq<u8>>, Seq<u8>, Seq<char>>::Finished(
                Err(Error::Protocol("Not enough bytes to decode ResponseHeader"@)),
            );
            match exchange.stage {
                ExchangeStage::RequestAnswer => {
                    &&& bytes.len() == 0 ==> read == cut
                    &&& bytes.len() == 1 && exchange.status_owed ==> read == cut
                    &&& bytes.len() >= 2 || bytes.len() == 1 && !exchange.status_owed
                        ==> read is Pending
                },
                ExchangeStage::ResponseStatus => {
                    &&& bytes.len() == 0 ==> read == cut
                    &&& bytes.len() > 0 ==> read == exchange.after(
                        Event::Received(seq![bytes[0]]),
                    )
                },
                ExchangeStage::ResponseSize => {
                    &&& bytes.len() == 0 ==> read == Progress::<
                        Exchange<Seq<u8>>,
                        Seq<u8>,
                        Seq<char>,
                    >::Pending(exchange)
                    &&& bytes.len() > 0 ==> read == Progress::<
                        Exchange<Seq<u8>>,
                        Seq<u8>,
                        Seq<char>,
                    >::Pending(
                        Exchange {
                            stage: ExchangeStage::ResponseSizeRest { first: bytes[0] },
                            ..exchange
                        },
                    )
                },
                ExchangeStage::ResponseSizeRest { .. } => bytes.len() < 3 ==> read == cut,
                _ => true,
            }
        }),
{
}

} // verus!
